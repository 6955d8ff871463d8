//! The changes to a library being edited: its new name and the
//! directories to add to it or remove from it.

use vstd::prelude::*;

verus! {

/// Whether `c` has Unicode's White_Space property (the code points that
/// Unicode's PropList lists for it).
pub open spec fn is_white_space(c: char) -> bool {
    let n = c as int;
    ||| 0x9 <= n <= 0xD
    ||| n == 0x20
    ||| n == 0x85
    ||| n == 0xA0
    ||| n == 0x1680
    ||| 0x2000 <= n <= 0x200A
    ||| n == 0x2028
    ||| n == 0x2029
    ||| n == 0x202F
    ||| n == 0x205F
    ||| n == 0x3000
}

/// `s` without its leading white space.
pub open spec fn trim_start(s: Seq<char>) -> Seq<char>
    decreases s.len(),
{
    if s.len() > 0 && is_white_space(s[0]) {
        trim_start(s.drop_first())
    } else {
        s
    }
}

/// `s` without its trailing white space.
pub open spec fn trim_end(s: Seq<char>) -> Seq<char>
    decreases s.len(),
{
    if s.len() > 0 && is_white_space(s.last()) {
        trim_end(s.drop_last())
    } else {
        s
    }
}

/// The text of `s` with its leading and trailing white space removed.
pub open spec fn trimmed(s: Seq<char>) -> Seq<char> {
    trim_end(trim_start(s))
}

/// `str::trim`: the documentation says it returns the text without its
/// leading and trailing white space, white space being the characters
/// with Unicode's White_Space property.
#[verifier::external_body]
fn trim_text(s: &str) -> (r: String)
    ensures
        r@ == trimmed(s@),
{
    s.trim().to_string()
}

/// The texts of a list of strings.
pub open spec fn texts(v: Seq<String>) -> Seq<Seq<char>> {
    v.map_values(|s: String| s@)
}

/// Whether `i` is the first place at which `x` stands in `s`.
pub open spec fn is_first_text(s: Seq<Seq<char>>, x: Seq<char>, i: int) -> bool {
    &&& 0 <= i < s.len()
    &&& s[i] == x
    &&& forall|j: int| 0 <= j < i ==> s[j] != x
}

/// The first place at which `x` stands in `s` (meaningful when it does).
pub open spec fn first_text(s: Seq<Seq<char>>, x: Seq<char>) -> int {
    choose|i: int| is_first_text(s, x, i)
}

proof fn lemma_first_text_unique(s: Seq<Seq<char>>, x: Seq<char>, i: int)
    requires
        is_first_text(s, x, i),
    ensures
        first_text(s, x) == i,
{
    let k = first_text(s, x);
    assert(is_first_text(s, x, k));
    if k < i {
        assert(s[k] != x);
    } else if k > i {
        assert(s[i] != x);
    }
}

/// Where the text `x` first stands in `v`, if it does.
fn find_text(v: &Vec<String>, x: &String) -> (r: Option<usize>)
    ensures
        match r {
            Some(i) => i < v@.len() && first_text(texts(v@), x@) == i && is_first_text(texts(v@), x@, i as int),
            None => !texts(v@).contains(x@),
        },
{
    let mut i: usize = 0;
    while i < v.len()
        invariant
            i <= v@.len(),
            forall|j: int| 0 <= j < i ==> texts(v@)[j] != x@,
        decreases v@.len() - i,
    {
        if v[i] == *x {
            proof {
                lemma_first_text_unique(texts(v@), x@, i as int);
            }
            return Some(i);
        }
        i = i + 1;
    }
    proof {
        if texts(v@).contains(x@) {
            let k = choose|k: int| 0 <= k < texts(v@).len() && texts(v@)[k] == x@;
            assert(texts(v@)[k] != x@);
        }
    }
    None
}

/// The directories to add (`a`) and to remove (`r`) after directory `v`
/// is added, where the library's own directories have been received
/// (`loaded`) or not.
pub open spec fn spec_add_directory(a: Seq<Seq<char>>, r: Seq<Seq<char>>, v: Seq<char>, loaded: bool) -> (
    Seq<Seq<char>>,
    Seq<Seq<char>>,
) {
    if a.contains(v) {
        (a, r)
    } else if r.contains(v) {
        (a, r.update(first_text(r, v), r.last()).drop_last())
    } else if loaded {
        (a, r)
    } else {
        (a.push(v), r)
    }
}

/// The directories to add (`a`) and to remove (`r`) after directory `v`
/// is removed.
pub open spec fn spec_remove_directory(a: Seq<Seq<char>>, r: Seq<Seq<char>>, v: Seq<char>) -> (
    Seq<Seq<char>>,
    Seq<Seq<char>>,
) {
    if a.contains(v) {
        (a.remove(first_text(a, v)), r)
    } else {
        (a, r.push(v))
    }
}

/// Adding a directory that was neither to be added nor removed, before the
/// library's directories arrived, and then removing it, leaves the changes
/// as they were.
pub proof fn law_add_then_remove_directory(a: Seq<Seq<char>>, r: Seq<Seq<char>>, v: Seq<char>)
    requires
        !a.contains(v),
        !r.contains(v),
    ensures
        ({
            let (a1, r1) = spec_add_directory(a, r, v, false);
            spec_remove_directory(a1, r1, v)
        }) == (a, r),
{
    let a1 = a.push(v);
    assert(a1[a.len() as int] == v);
    assert forall|j: int| 0 <= j < a.len() implies a1[j] != v by {
        assert(a1[j] == a[j]);
    }
    lemma_first_text_unique(a1, v, a.len() as int);
    assert(a1.remove(a.len() as int) =~= a);
}

/// Removing a directory that was neither to be added nor removed, and then
/// adding it back, leaves the changes as they were.
pub proof fn law_remove_then_add_directory(a: Seq<Seq<char>>, r: Seq<Seq<char>>, v: Seq<char>, loaded: bool)
    requires
        !a.contains(v),
        !r.contains(v),
    ensures
        ({
            let (a1, r1) = spec_remove_directory(a, r, v);
            spec_add_directory(a1, r1, v, loaded)
        }) == (a, r),
{
    let r1 = r.push(v);
    assert(r1[r.len() as int] == v);
    assert forall|j: int| 0 <= j < r.len() implies r1[j] != v by {
        assert(r1[j] == r[j]);
    }
    lemma_first_text_unique(r1, v, r.len() as int);
    assert(r1.update(r.len() as int, r1.last()).drop_last() =~= r);
}

/// The changes asked of a library.
pub struct LibraryUpdate {
    /// The new name, if one was given.
    pub name: Option<String>,
    /// The directories to add.
    pub add_directories: Vec<String>,
    /// The directories to remove.
    pub remove_directories: Vec<String>,
}

/// The name a trimmed text gives: none when the text is empty.
pub fn name_from_trimmed(text: String) -> (r: Option<String>)
    ensures
        r is Some <==> text@.len() > 0,
        r matches Some(n) ==> n@ == text@,
{
    if text.as_str().is_empty() {
        None
    } else {
        Some(text)
    }
}

impl LibraryUpdate {
    pub fn new() -> (r: Self)
        ensures
            r.name is None,
            r.add_directories@.len() == 0,
            r.remove_directories@.len() == 0,
    {
        LibraryUpdate { name: None, add_directories: Vec::new(), remove_directories: Vec::new() }
    }

    /// The name typed became `value`: the library is to take it without
    /// its surrounding white space, or keep its name when nothing is left.
    pub fn on_change_name(&mut self, value: &str)
        ensures
            match final(self).name {
                Some(n) => trimmed(value@).len() > 0 && n@ == trimmed(value@),
                None => trimmed(value@).len() == 0,
            },
            final(self).add_directories == old(self).add_directories,
            final(self).remove_directories == old(self).remove_directories,
    {
        let text = trim_text(value);
        self.name = name_from_trimmed(text);
    }

    /// Directory `value` is added: one about to be removed is kept instead;
    /// otherwise it joins the directories to add, unless it is already
    /// there or the library's directories have been received.
    pub fn on_add_directory(&mut self, value: String, existing: Option<&Vec<String>>)
        ensures
            (texts(final(self).add_directories@), texts(final(self).remove_directories@)) == spec_add_directory(
                texts(old(self).add_directories@),
                texts(old(self).remove_directories@),
                value@,
                existing is Some,
            ),
            final(self).name == old(self).name,
    {
        if find_text(&self.add_directories, &value).is_some() {
            return;
        }
        match find_text(&self.remove_directories, &value) {
            Some(i) => {
                let ghost r0 = self.remove_directories@;
                self.remove_directories.swap_remove(i);
                assert(texts(self.remove_directories@) =~= texts(r0).update(i as int, texts(r0).last()).drop_last());
            },
            None => {
                if existing.is_none() {
                    let ghost a0 = self.add_directories@;
                    self.add_directories.push(value);
                    assert(texts(self.add_directories@) =~= texts(a0).push(value@));
                }
            },
        }
    }

    /// Directory `value` is removed: one about to be added is no longer
    /// added; otherwise it joins the directories to remove.
    pub fn on_remove_directory(&mut self, value: String)
        ensures
            (texts(final(self).add_directories@), texts(final(self).remove_directories@)) == spec_remove_directory(
                texts(old(self).add_directories@),
                texts(old(self).remove_directories@),
                value@,
            ),
            final(self).name == old(self).name,
    {
        match find_text(&self.add_directories, &value) {
            Some(i) => {
                let ghost a0 = self.add_directories@;
                self.add_directories.remove(i);
                assert(texts(self.add_directories@) =~= texts(a0).remove(i as int));
            },
            None => {
                let ghost r0 = self.remove_directories@;
                self.remove_directories.push(value);
                assert(texts(self.remove_directories@) =~= texts(r0).push(value@));
            },
        }
    }
}

} // verus!
