use vstd::prelude::*;

verus! {

/// An optional decoder that a build of the engine may leave out.
#[derive(PartialEq, Eq, Structural, Clone, Copy, Debug)]
pub enum ImageFeature {
    BasisUniversal,
    Bmp,
    Png,
    Dds,
    Tga,
    Jpeg,
    Ktx2,
    Webp,
    Pnm,
}

/// The name of the build feature that enables a decoder.
pub open spec fn feature_name_spec(f: ImageFeature) -> Seq<char> {
    match f {
        ImageFeature::BasisUniversal => "basis-universal"@,
        ImageFeature::Bmp => "bmp"@,
        ImageFeature::Png => "png"@,
        ImageFeature::Dds => "dds"@,
        ImageFeature::Tga => "tga"@,
        ImageFeature::Jpeg => "jpeg"@,
        ImageFeature::Ktx2 => "ktx2"@,
        ImageFeature::Webp => "webp"@,
        ImageFeature::Pnm => "pnm"@,
    }
}

impl ImageFeature {
    /// The name of the build feature that enables this decoder.
    pub fn name(&self) -> (r: &'static str)
        ensures
            r@ == feature_name_spec(*self),
    {
        match self {
            ImageFeature::BasisUniversal => "basis-universal",
            ImageFeature::Bmp => "bmp",
            ImageFeature::Png => "png",
            ImageFeature::Dds => "dds",
            ImageFeature::Tga => "tga",
            ImageFeature::Jpeg => "jpeg",
            ImageFeature::Ktx2 => "ktx2",
            ImageFeature::Webp => "webp",
            ImageFeature::Pnm => "pnm",
        }
    }
}

/// Which optional decoders a build has.
#[derive(PartialEq, Eq, Structural, Clone, Copy, Debug)]
pub struct FeatureSet {
    pub basis_universal: bool,
    pub bmp: bool,
    pub png: bool,
    pub dds: bool,
    pub tga: bool,
    pub jpeg: bool,
    pub ktx2: bool,
    pub webp: bool,
    pub pnm: bool,
}

impl FeatureSet {
    pub open spec fn enables(self, f: ImageFeature) -> bool {
        match f {
            ImageFeature::BasisUniversal => self.basis_universal,
            ImageFeature::Bmp => self.bmp,
            ImageFeature::Png => self.png,
            ImageFeature::Dds => self.dds,
            ImageFeature::Tga => self.tga,
            ImageFeature::Jpeg => self.jpeg,
            ImageFeature::Ktx2 => self.ktx2,
            ImageFeature::Webp => self.webp,
            ImageFeature::Pnm => self.pnm,
        }
    }

    /// Whether this build has the decoder behind `f`.
    pub fn is_enabled(&self, f: ImageFeature) -> (r: bool)
        ensures
            r == self.enables(f),
    {
        match f {
            ImageFeature::BasisUniversal => self.basis_universal,
            ImageFeature::Bmp => self.bmp,
            ImageFeature::Png => self.png,
            ImageFeature::Dds => self.dds,
            ImageFeature::Tga => self.tga,
            ImageFeature::Jpeg => self.jpeg,
            ImageFeature::Ktx2 => self.ktx2,
            ImageFeature::Webp => self.webp,
            ImageFeature::Pnm => self.pnm,
        }
    }
}

/// The fixed table of image file extensions, each with the feature behind it.
pub open spec fn extension_table() -> Seq<(Seq<char>, ImageFeature)> {
    seq![
        ("basis"@, ImageFeature::BasisUniversal),
        ("bmp"@, ImageFeature::Bmp),
        ("png"@, ImageFeature::Png),
        ("dds"@, ImageFeature::Dds),
        ("tga"@, ImageFeature::Tga),
        ("jpg"@, ImageFeature::Jpeg),
        ("jpeg"@, ImageFeature::Jpeg),
        ("ktx2"@, ImageFeature::Ktx2),
        ("webp"@, ImageFeature::Webp),
        ("pam"@, ImageFeature::Pnm),
        ("pbm"@, ImageFeature::Pnm),
        ("pgm"@, ImageFeature::Pnm),
        ("ppm"@, ImageFeature::Pnm),
    ]
}

/// The extensions of `t` whose feature `fs` enables, in table order.
pub open spec fn enabled_in(t: Seq<(Seq<char>, ImageFeature)>, fs: FeatureSet) -> Seq<Seq<char>>
    decreases t.len(),
{
    if t.len() == 0 {
        Seq::empty()
    } else {
        let rest = enabled_in(t.drop_last(), fs);
        if fs.enables(t.last().1) {
            rest.push(t.last().0)
        } else {
            rest
        }
    }
}

/// The entries of `t` whose feature `fs` leaves out, as extension and
/// feature name, in table order.
pub open spec fn disabled_in(t: Seq<(Seq<char>, ImageFeature)>, fs: FeatureSet) -> Seq<(Seq<char>, Seq<char>)>
    decreases t.len(),
{
    if t.len() == 0 {
        Seq::empty()
    } else {
        let rest = disabled_in(t.drop_last(), fs);
        if fs.enables(t.last().1) {
            rest
        } else {
            rest.push((t.last().0, feature_name_spec(t.last().1)))
        }
    }
}

pub open spec fn texts(v: Seq<&'static str>) -> Seq<Seq<char>> {
    v.map_values(|s: &'static str| s@)
}

/// An extension that this build cannot load, with the feature that would
/// enable it.
#[derive(Clone, Copy, Debug)]
pub struct DisabledExtension {
    pub extension: &'static str,
    pub feature: &'static str,
}

pub open spec fn disabled_view(v: Seq<DisabledExtension>) -> Seq<(Seq<char>, Seq<char>)> {
    v.map_values(|d: DisabledExtension| (d.extension@, d.feature@))
}

pub open spec fn entries_view(v: Seq<(&'static str, ImageFeature)>) -> Seq<(Seq<char>, ImageFeature)> {
    v.map_values(|e: (&'static str, ImageFeature)| (e.0@, e.1))
}

/// The fixed table of image file extensions.
pub fn extension_entries() -> (r: Vec<(&'static str, ImageFeature)>)
    ensures
        entries_view(r@) == extension_table(),
{
    let r = vec![
        ("basis", ImageFeature::BasisUniversal),
        ("bmp", ImageFeature::Bmp),
        ("png", ImageFeature::Png),
        ("dds", ImageFeature::Dds),
        ("tga", ImageFeature::Tga),
        ("jpg", ImageFeature::Jpeg),
        ("jpeg", ImageFeature::Jpeg),
        ("ktx2", ImageFeature::Ktx2),
        ("webp", ImageFeature::Webp),
        ("pam", ImageFeature::Pnm),
        ("pbm", ImageFeature::Pnm),
        ("pgm", ImageFeature::Pnm),
        ("ppm", ImageFeature::Pnm),
    ];
    assert(entries_view(r@) =~= extension_table());
    r
}

/// The extensions of the fixed table that a build with `fs` can load.
pub fn img_file_extensions(fs: &FeatureSet) -> (r: Vec<&'static str>)
    ensures
        texts(r@) == enabled_in(extension_table(), *fs),
{
    let table = extension_entries();
    let ghost t = extension_table();
    let mut out: Vec<&'static str> = Vec::new();
    let mut i: usize = 0;
    while i < table.len()
        invariant
            i <= table.len(),
            entries_view(table@) == t,
            t == extension_table(),
            texts(out@) == enabled_in(t.take(i as int), *fs),
        decreases table.len() - i,
    {
        let (ext, f) = table[i];
        assert(t[i as int] == (ext@, f));
        assert(t.take(i + 1).drop_last() =~= t.take(i as int));
        if fs.is_enabled(f) {
            out.push(ext);
        }
        assert(texts(out@) =~= enabled_in(t.take(i + 1), *fs));
        i = i + 1;
    }
    assert(t.take(i as int) =~= t);
    out
}

/// The entries of the fixed table that a build with `fs` cannot load.
pub fn disabled_img_file_extensions(fs: &FeatureSet) -> (r: Vec<DisabledExtension>)
    ensures
        disabled_view(r@) == disabled_in(extension_table(), *fs),
{
    let table = extension_entries();
    let ghost t = extension_table();
    let mut out: Vec<DisabledExtension> = Vec::new();
    let mut i: usize = 0;
    while i < table.len()
        invariant
            i <= table.len(),
            entries_view(table@) == t,
            t == extension_table(),
            disabled_view(out@) == disabled_in(t.take(i as int), *fs),
        decreases table.len() - i,
    {
        let (ext, f) = table[i];
        assert(t[i as int] == (ext@, f));
        assert(t.take(i + 1).drop_last() =~= t.take(i as int));
        if !fs.is_enabled(f) {
            out.push(DisabledExtension { extension: ext, feature: f.name() });
        }
        assert(disabled_view(out@) =~= disabled_in(t.take(i + 1), *fs));
        i = i + 1;
    }
    assert(t.take(i as int) =~= t);
    out
}

} // verus!

verus! {

/// The hinted extensions: the first component of each disabled entry.
pub open spec fn hinted_in(t: Seq<(Seq<char>, ImageFeature)>, fs: FeatureSet) -> Seq<Seq<char>> {
    disabled_in(t, fs).map_values(|d: (Seq<char>, Seq<char>)| d.0)
}

proof fn lemma_enabled_in_contains(t: Seq<(Seq<char>, ImageFeature)>, fs: FeatureSet, e: Seq<char>)
    ensures
        enabled_in(t, fs).contains(e) <==> exists|i: int|
            0 <= i < t.len() && #[trigger] t[i].0 == e && fs.enables(t[i].1),
    decreases t.len(),
{
    if t.len() > 0 {
        let p = t.drop_last();
        lemma_enabled_in_contains(p, fs, e);
        let rest = enabled_in(p, fs);
        if exists|i: int| 0 <= i < t.len() && #[trigger] t[i].0 == e && fs.enables(t[i].1) {
            let i = choose|i: int| 0 <= i < t.len() && #[trigger] t[i].0 == e && fs.enables(t[i].1);
            if i < t.len() - 1 {
                assert(p[i] == t[i]);
                let k = choose|k: int| 0 <= k < rest.len() && rest[k] == e;
                if fs.enables(t.last().1) {
                    assert(enabled_in(t, fs)[k] == e);
                }
            } else {
                assert(enabled_in(t, fs).last() == e);
            }
        }
        if enabled_in(t, fs).contains(e) {
            let k = choose|k: int| 0 <= k < enabled_in(t, fs).len() && enabled_in(t, fs)[k] == e;
            if k < rest.len() {
                assert(rest[k] == e);
                let i = choose|i: int| 0 <= i < p.len() && #[trigger] p[i].0 == e && fs.enables(p[i].1);
                assert(t[i] == p[i]);
            } else {
                assert(t[t.len() - 1].0 == e);
            }
        }
    }
}

proof fn lemma_disabled_in_contains(t: Seq<(Seq<char>, ImageFeature)>, fs: FeatureSet, e: Seq<char>)
    ensures
        hinted_in(t, fs).contains(e) <==> exists|i: int|
            0 <= i < t.len() && #[trigger] t[i].0 == e && !fs.enables(t[i].1),
    decreases t.len(),
{
    if t.len() > 0 {
        let p = t.drop_last();
        lemma_disabled_in_contains(p, fs, e);
        let rest = hinted_in(p, fs);
        let all = hinted_in(t, fs);
        if fs.enables(t.last().1) {
            assert(all =~= rest);
        } else {
            assert(all =~= rest.push(t.last().0));
        }
        if exists|i: int| 0 <= i < t.len() && #[trigger] t[i].0 == e && !fs.enables(t[i].1) {
            let i = choose|i: int| 0 <= i < t.len() && #[trigger] t[i].0 == e && !fs.enables(t[i].1);
            if i < t.len() - 1 {
                assert(p[i] == t[i]);
                let k = choose|k: int| 0 <= k < rest.len() && rest[k] == e;
                assert(all[k] == e);
            } else {
                assert(all.last() == e);
            }
        }
        if all.contains(e) {
            let k = choose|k: int| 0 <= k < all.len() && all[k] == e;
            if k < rest.len() {
                assert(rest[k] == e);
                let i = choose|i: int| 0 <= i < p.len() && #[trigger] p[i].0 == e && !fs.enables(p[i].1);
                assert(t[i] == p[i]);
            } else {
                assert(t[t.len() - 1].0 == e);
            }
        }
    }
}

/// Length and first two characters: enough to tell the table's extensions apart.
spec fn extension_key(s: Seq<char>) -> (int, char, char) {
    (s.len() as int, s[0], s[1])
}

/// No extension stands twice in the fixed table.
pub proof fn lemma_table_extensions_distinct()
    ensures
        forall|i: int, j: int|
            0 <= i < j < extension_table().len() ==> extension_table()[i].0 != extension_table()[j].0,
{
    let t = extension_table();
    let keys: Seq<(int, char, char)> = seq![
        (5, 'b', 'a'),
        (3, 'b', 'm'),
        (3, 'p', 'n'),
        (3, 'd', 'd'),
        (3, 't', 'g'),
        (3, 'j', 'p'),
        (4, 'j', 'p'),
        (4, 'k', 't'),
        (4, 'w', 'e'),
        (3, 'p', 'a'),
        (3, 'p', 'b'),
        (3, 'p', 'g'),
        (3, 'p', 'p'),
    ];
    reveal_strlit("basis");
    reveal_strlit("bmp");
    reveal_strlit("png");
    reveal_strlit("dds");
    reveal_strlit("tga");
    reveal_strlit("jpg");
    reveal_strlit("jpeg");
    reveal_strlit("ktx2");
    reveal_strlit("webp");
    reveal_strlit("pam");
    reveal_strlit("pbm");
    reveal_strlit("pgm");
    reveal_strlit("ppm");
    assert forall|i: int| 0 <= i < t.len() implies extension_key(t[i].0) == keys[i] by {
        if i == 0 {
            assert(extension_key(t[i].0) == keys[i]);
        }         else if i == 1 {
            assert(extension_key(t[i].0) == keys[i]);
        }         else if i == 2 {
            assert(extension_key(t[i].0) == keys[i]);
        }         else if i == 3 {
            assert(extension_key(t[i].0) == keys[i]);
        }         else if i == 4 {
            assert(extension_key(t[i].0) == keys[i]);
        }         else if i == 5 {
            assert(extension_key(t[i].0) == keys[i]);
        }         else if i == 6 {
            assert(extension_key(t[i].0) == keys[i]);
        }         else if i == 7 {
            assert(extension_key(t[i].0) == keys[i]);
        }         else if i == 8 {
            assert(extension_key(t[i].0) == keys[i]);
        }         else if i == 9 {
            assert(extension_key(t[i].0) == keys[i]);
        }         else if i == 10 {
            assert(extension_key(t[i].0) == keys[i]);
        }         else if i == 11 {
            assert(extension_key(t[i].0) == keys[i]);
        }         else if i == 12 {
            assert(extension_key(t[i].0) == keys[i]);
        }
    }
    assert forall|i: int, j: int| 0 <= i < j < t.len() implies t[i].0 != t[j].0 by {
        assert(keys[i] != keys[j]);
    }
}

/// The reported extensions are exactly the extensions of the fixed table whose
/// feature the build enables.
pub proof fn lemma_reported_extensions(fs: FeatureSet, e: Seq<char>)
    ensures
        enabled_in(extension_table(), fs).contains(e) <==> exists|i: int|
            0 <= i < extension_table().len() && #[trigger] extension_table()[i].0 == e
                && fs.enables(extension_table()[i].1),
{
    lemma_enabled_in_contains(extension_table(), fs, e);
}

/// A hint is given for an extension exactly when the table holds it under a
/// feature that the build leaves out, and never for a reported extension.
pub proof fn lemma_hints_only_for_disabled(fs: FeatureSet, e: Seq<char>)
    ensures
        hinted_in(extension_table(), fs).contains(e) <==> exists|i: int|
            0 <= i < extension_table().len() && #[trigger] extension_table()[i].0 == e
                && !fs.enables(extension_table()[i].1),
        !(hinted_in(extension_table(), fs).contains(e) && enabled_in(extension_table(), fs).contains(e)),
{
    let t = extension_table();
    lemma_enabled_in_contains(t, fs, e);
    lemma_disabled_in_contains(t, fs, e);
    lemma_table_extensions_distinct();
    if hinted_in(t, fs).contains(e) && enabled_in(t, fs).contains(e) {
        let i = choose|i: int| 0 <= i < t.len() && #[trigger] t[i].0 == e && !fs.enables(t[i].1);
        let j = choose|j: int| 0 <= j < t.len() && #[trigger] t[j].0 == e && fs.enables(t[j].1);
        assert(i != j);
        if i < j {
            assert(t[i].0 != t[j].0);
        } else {
            assert(t[j].0 != t[i].0);
        }
    }
}

} // verus!
