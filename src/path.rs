use vstd::prelude::*;

verus! {

/// True for the characters that separate the components of a path: `/`, and
/// `\` on every platform (stricter than std on Unix).
pub open spec fn is_separator(c: char) -> bool {
    c == '/' || c == '\\'
}

/// The component that starts at `i` is exactly `..`.
pub open spec fn parent_component_at(p: Seq<char>, i: int) -> bool {
    &&& 0 <= i
    &&& i + 2 <= p.len()
    &&& p[i] == '.'
    &&& p[i + 1] == '.'
    &&& (i == 0 || is_separator(p[i - 1]))
    &&& (i + 2 == p.len() || is_separator(p[i + 2]))
}

/// Some component of the path is `..`.
pub open spec fn has_parent_component(p: Seq<char>) -> bool {
    exists|i: int| parent_component_at(p, i)
}

fn is_separator_char(c: char) -> (r: bool)
    ensures
        r == is_separator(c),
{
    c == '/' || c == '\\'
}

/// A file-system path that never climbs to a parent directory: none of its
/// components is `..`. Both `/` and `\` separate components on every
/// platform, so a path such as `a\..\b`, which would climb on Windows, is
/// refused on Unix too, where std would read it as a single name.
#[derive(Debug)]
pub struct SafePath {
    path: String,
}

impl View for SafePath {
    type V = Seq<char>;

    closed spec fn view(&self) -> Seq<char> {
        self.path@
    }
}

impl SafePath {
    /// Well-formed: the path has no `..` component. Every path value is.
    #[verifier::type_invariant]
    pub open spec fn wf(&self) -> bool {
        !has_parent_component(self@)
    }

    /// Accepts `path` unless one of its components is `..`.
    pub fn new(path: String) -> (r: Option<SafePath>)
        ensures
            r is Some <==> !has_parent_component(path@),
            r matches Some(p) ==> p@ == path@ && p.wf(),
    {
        let n = path.as_str().unicode_len();
        let mut i: usize = 0;
        while i < n
            invariant
                n == path@.len(),
                i <= n,
                forall|j: int| 0 <= j < i ==> !parent_component_at(path@, j),
            decreases n - i,
        {
            let s = path.as_str();
            if i + 1 < n && s.get_char(i) == '.' && s.get_char(i + 1) == '.' {
                let opens = i == 0 || is_separator_char(s.get_char(i - 1));
                let closes = i + 2 == n || is_separator_char(s.get_char(i + 2));
                if opens && closes {
                    assert(parent_component_at(path@, i as int));
                    return None;
                }
            }
            i = i + 1;
        }
        assert(!has_parent_component(path@));
        Some(SafePath { path })
    }

    /// The path as text.
    pub fn as_str(&self) -> (r: &str)
        ensures
            r@ == self@,
    {
        self.path.as_str()
    }
}

impl Clone for SafePath {
    fn clone(&self) -> (r: Self)
        ensures
            r@ == self@,
            r.wf() == self.wf(),
    {
        proof {
            use_type_invariant(self);
        }
        SafePath { path: self.path.clone() }
    }
}

impl PartialEq for SafePath {
    fn eq(&self, other: &Self) -> (r: bool)
        ensures
            r == (self@ == other@),
    {
        self.path == other.path
    }
}

impl vstd::std_specs::cmp::PartialEqSpecImpl for SafePath {
    open spec fn obeys_eq_spec() -> bool {
        true
    }

    open spec fn eq_spec(&self, other: &SafePath) -> bool {
        self@ == other@
    }
}

} // verus!
