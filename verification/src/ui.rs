//! The viewer's menu state and its list of example models.

use vstd::prelude::*;

use crate::text::join2;

verus! {

broadcast use vstd::seq_lib::group_to_multiset_ensures;

/// Lexicographic order of texts by character code points, which is the
/// order of their UTF-8 bytes.
pub open spec fn spec_text_le(a: Seq<char>, b: Seq<char>) -> bool
    decreases a.len(),
{
    if a.len() == 0 {
        true
    } else if b.len() == 0 {
        false
    } else if a[0] != b[0] {
        (a[0] as int) < (b[0] as int)
    } else {
        spec_text_le(a.drop_first(), b.drop_first())
    }
}

/// Any two texts are ordered one way or the other.
pub proof fn lemma_text_le_total(a: Seq<char>, b: Seq<char>)
    ensures
        spec_text_le(a, b) || spec_text_le(b, a),
    decreases a.len(),
{
    if a.len() > 0 && b.len() > 0 {
        if a[0] == b[0] {
            lemma_text_le_total(a.drop_first(), b.drop_first());
        } else {
            assert((a[0] as int) != (b[0] as int));
        }
    }
}

/// The order is transitive.
pub proof fn lemma_text_le_transitive(a: Seq<char>, b: Seq<char>, c: Seq<char>)
    requires
        spec_text_le(a, b),
        spec_text_le(b, c),
    ensures
        spec_text_le(a, c),
    decreases a.len(),
{
    if a.len() > 0 && b.len() > 0 && c.len() > 0 && a[0] == b[0] && b[0] == c[0] {
        lemma_text_le_transitive(a.drop_first(), b.drop_first(), c.drop_first());
    }
}

/// Whether `a` comes before `b` or equals it, by code points.
pub fn text_le(a: &str, b: &str) -> (le: bool)
    ensures
        le == spec_text_le(a@, b@),
{
    let la = a.unicode_len();
    let lb = b.unicode_len();
    let mut i: usize = 0;
    assert(a@.skip(0) =~= a@);
    assert(b@.skip(0) =~= b@);
    while i < la && i < lb
        invariant
            la == a@.len(),
            lb == b@.len(),
            i <= la,
            i <= lb,
            spec_text_le(a@, b@) == spec_text_le(a@.skip(i as int), b@.skip(i as int)),
        decreases la - i,
    {
        let ca = a.get_char(i);
        let cb = b.get_char(i);
        assert(a@.skip(i as int)[0] == ca);
        assert(b@.skip(i as int)[0] == cb);
        if ca != cb {
            return (ca as u32) < (cb as u32);
        }
        assert(a@.skip(i as int).drop_first() =~= a@.skip(i + 1));
        assert(b@.skip(i as int).drop_first() =~= b@.skip(i + 1));
        i += 1;
    }
    la <= lb
}

/// Each text is ordered before or equal to the next ones.
pub open spec fn spec_sorted(s: Seq<String>) -> bool {
    forall|i: int, j: int| 0 <= i < j < s.len() ==> spec_text_le(#[trigger] s[i]@, #[trigger] s[j]@)
}

/// The texts in code-point order.
pub fn sort_texts(texts: Vec<String>) -> (sorted: Vec<String>)
    ensures
        spec_sorted(sorted@),
        sorted@.to_multiset() == texts@.to_multiset(),
{
    let mut sorted: Vec<String> = Vec::new();
    let n = texts.len();
    let mut i: usize = 0;
    while i < n
        invariant
            n == texts@.len(),
            i <= n,
            spec_sorted(sorted@),
            sorted@.to_multiset() == texts@.take(i as int).to_multiset(),
        decreases n - i,
    {
        let x = texts[i].clone();
        let m = sorted.len();
        let mut p: usize = 0;
        while p < m && text_le(sorted[p].as_str(), x.as_str())
            invariant
                m == sorted@.len(),
                p <= m,
                forall|k: int| 0 <= k < p ==> spec_text_le(#[trigger] sorted@[k]@, x@),
            decreases m - p,
        {
            p += 1;
        }
        let ghost before = sorted@;
        proof {
            if p < m {
                lemma_text_le_total(before[p as int]@, x@);
            }
        }
        sorted.insert(p, x);
        proof {
            let after = sorted@;
            assert(after == before.insert(p as int, x));
            assert forall|a: int, b: int| 0 <= a < b < after.len() implies spec_text_le(
                #[trigger] after[a]@,
                #[trigger] after[b]@,
            ) by {
                if b < p {
                    assert(after[a] == before[a] && after[b] == before[b]);
                } else if b == p {
                    assert(after[a] == before[a]);
                } else if a == p {
                    assert(after[b] == before[b - 1]);
                    if b - 1 > p {
                        assert(spec_text_le(before[p as int]@, before[b - 1]@));
                        lemma_text_le_transitive(x@, before[p as int]@, before[b - 1]@);
                    }
                } else if a < p {
                    assert(after[a] == before[a] && after[b] == before[b - 1]);
                } else {
                    assert(after[a] == before[a - 1] && after[b] == before[b - 1]);
                }
            }
            assert(after.remove(p as int) =~= before);
            assert(after[p as int] == x);
            assert(texts@.take(i + 1) =~= texts@.take(i as int).push(texts@[i as int]));
            assert(after.to_multiset() =~= before.to_multiset().insert(x));
        }
        i += 1;
    }
    assert(texts@.take(n as int) =~= texts@);
    sorted
}

/// `"gltf-models/" + name + "/glTF/" + name + ".gltf"`.
pub open spec fn spec_example_gltf_path(name: Seq<char>) -> Seq<char> {
    "gltf-models/"@ + name + "/glTF/"@ + name + ".gltf"@
}

/// `"gltf-models/" + name + "/glTF-Binary/" + name + ".glb"`.
pub open spec fn spec_example_glb_path(name: Seq<char>) -> Seq<char> {
    "gltf-models/"@ + name + "/glTF-Binary/"@ + name + ".glb"@
}

/// Where the text-format glTF of the example `name` lives, relative to the
/// resource directory.
pub fn example_gltf_path(name: &str) -> (path: String)
    ensures
        path@ == spec_example_gltf_path(name@),
{
    let mut path = join2("gltf-models/", name);
    path.append("/glTF/");
    path.append(name);
    path.append(".gltf");
    path
}

/// Where the binary glTF of the example `name` lives, relative to the
/// resource directory.
pub fn example_glb_path(name: &str) -> (path: String)
    ensures
        path@ == spec_example_glb_path(name@),
{
    let mut path = join2("gltf-models/", name);
    path.append("/glTF-Binary/");
    path.append(name);
    path.append(".glb");
    path
}

/// A path inside the resource directory `res/`.
pub fn resource_path(relative: &str) -> (path: String)
    ensures
        path@ == "res/"@ + relative@,
{
    join2("res/", relative)
}

/// The model file that represents the example `name`: its text glTF when
/// that exists, else its binary glTF when that exists, else nothing.
pub fn example_model_path(name: &str, gltf_exists: bool, glb_exists: bool) -> (path: Option<String>)
    ensures
        gltf_exists ==> (path matches Some(p) && p@ == spec_example_gltf_path(name@)),
        !gltf_exists && glb_exists ==> (path matches Some(p) && p@ == spec_example_glb_path(name@)),
        !gltf_exists && !glb_exists ==> path is None,
{
    if gltf_exists {
        Some(example_gltf_path(name))
    } else if glb_exists {
        Some(example_glb_path(name))
    } else {
        None
    }
}

/// Name for what `std::path::Path::file_stem` gives for a path, as text.
pub uninterp spec fn path_file_stem(path: Seq<char>) -> Option<Seq<char>>;

/// `std::path::Path::file_stem` on `path`. Claimed: the result is
/// `path_file_stem` of the path.
#[verifier::external_body]
fn file_stem(path: &str) -> (stem: Option<String>)
    ensures
        match stem {
            Some(s) => path_file_stem(path@) == Some(s@),
            None => path_file_stem(path@) is None,
        },
{
    match std::path::Path::new(path).file_stem() {
        Some(s) => Some(s.to_string_lossy().into_owned()),
        None => None,
    }
}

/// The menu label of an example model: its file stem, or "Unknown Model".
pub fn example_label(path: &str) -> (label: String)
    ensures
        label@ == match path_file_stem(path@) {
            Some(s) => s,
            None => "Unknown Model"@,
        },
{
    match file_stem(path) {
        Some(s) => s,
        None => "Unknown Model".to_owned(),
    }
}

/// The menu bar's state: which side panels are open and which example
/// models the "Open Example" menu offers.
pub struct AppUi {
    is_view_panel_open: bool,
    is_model_panel_open: bool,
    example_models: Vec<String>,
}

impl AppUi {
    pub closed spec fn view_panel_open(&self) -> bool {
        self.is_view_panel_open
    }

    pub closed spec fn model_panel_open(&self) -> bool {
        self.is_model_panel_open
    }

    pub closed spec fn spec_example_models(&self) -> Seq<String> {
        self.example_models@
    }

    /// Both panels closed, offering `example_models` in code-point order.
    pub fn new(example_models: Vec<String>) -> (ui: Self)
        ensures
            !ui.view_panel_open(),
            !ui.model_panel_open(),
            spec_sorted(ui.spec_example_models()),
            ui.spec_example_models().to_multiset() == example_models@.to_multiset(),
    {
        AppUi {
            is_model_panel_open: false,
            is_view_panel_open: false,
            example_models: sort_texts(example_models),
        }
    }

    /// Whether the render-options panel is open.
    pub fn is_view_panel_open(&self) -> (open: bool)
        ensures
            open == self.view_panel_open(),
    {
        self.is_view_panel_open
    }

    /// Whether the model panel is open.
    pub fn is_model_panel_open(&self) -> (open: bool)
        ensures
            open == self.model_panel_open(),
    {
        self.is_model_panel_open
    }

    /// The example models offered, in code-point order.
    pub fn example_models(&self) -> (models: &Vec<String>)
        ensures
            models@ == self.spec_example_models(),
    {
        &self.example_models
    }

    /// Opens the render-options panel when closed, closes it when open.
    pub fn toggle_view_panel(&mut self)
        ensures
            final(self).view_panel_open() == !old(self).view_panel_open(),
            final(self).model_panel_open() == old(self).model_panel_open(),
            final(self).spec_example_models() == old(self).spec_example_models(),
    {
        self.is_view_panel_open = !self.is_view_panel_open;
    }

    /// Opens the model panel when closed, closes it when open.
    pub fn toggle_model_panel(&mut self)
        ensures
            final(self).model_panel_open() == !old(self).model_panel_open(),
            final(self).view_panel_open() == old(self).view_panel_open(),
            final(self).spec_example_models() == old(self).spec_example_models(),
    {
        self.is_model_panel_open = !self.is_model_panel_open;
    }
}

/// How two texts compare: where they first differ, the one with the smaller
/// character code point comes first; when one is a prefix of the other, the
/// shorter comes first. This is the byte order of their UTF-8 encodings.
pub proof fn law_text_order(a: Seq<char>, b: Seq<char>, i: int)
    ensures
        0 <= i < a.len() && i < b.len() && a.take(i) == b.take(i) && a[i] != b[i]
            ==> spec_text_le(a, b) == ((a[i] as int) < (b[i] as int)),
        a.len() <= b.len() && a == b.take(a.len() as int) ==> spec_text_le(a, b),
        b.len() < a.len() && b == a.take(b.len() as int) ==> !spec_text_le(a, b),
    decreases a.len(),
{
    if 0 <= i < a.len() && i < b.len() && a.take(i) == b.take(i) && a[i] != b[i] {
        if i > 0 {
            assert(a[0] == a.take(i)[0] && b[0] == b.take(i)[0]);
            assert(a.drop_first().take(i - 1) =~= a.take(i).drop_first());
            assert(b.drop_first().take(i - 1) =~= b.take(i).drop_first());
            law_text_order(a.drop_first(), b.drop_first(), i - 1);
        }
    }
    if a.len() <= b.len() && a == b.take(a.len() as int) {
        if a.len() > 0 {
            assert(a[0] == b[0]);
            assert(a.drop_first() =~= b.drop_first().take(a.len() - 1));
            law_text_order(a.drop_first(), b.drop_first(), 0);
        }
    }
    if b.len() < a.len() && b == a.take(b.len() as int) {
        if b.len() > 0 {
            assert(a[0] == b[0]);
            assert(b.drop_first() =~= a.drop_first().take(b.len() - 1));
            law_text_order(a.drop_first(), b.drop_first(), 0);
        }
    }
}

} // verus!
