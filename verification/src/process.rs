//! Commands that the library asks its caller to run, as plain values.
use vstd::prelude::*;

verus! {

broadcast use vstd::string::group_string_axioms;

/// A program and its arguments.
pub struct Invocation {
    pub program: String,
    pub args: Vec<String>,
}

/// The mathematical content of an [`Invocation`].
pub struct InvocationView {
    pub program: Seq<char>,
    pub args: Seq<Seq<char>>,
}

/// The views of a sequence of strings.
pub open spec fn texts(v: Seq<String>) -> Seq<Seq<char>> {
    v.map_values(|a: String| a@)
}

/// The views of a sequence of string slices.
pub open spec fn str_texts(v: Seq<&str>) -> Seq<Seq<char>> {
    v.map_values(|a: &str| a@)
}

impl View for Invocation {
    type V = InvocationView;

    open spec fn view(&self) -> InvocationView {
        InvocationView { program: self.program@, args: texts(self.args@) }
    }
}

/// An owned copy of `s`.
pub fn owned(s: &str) -> (r: String)
    ensures
        r@ == s@,
{
    s.to_string()
}

/// Owned copies of `parts`, in order.
pub fn owned_all(parts: &[&str]) -> (v: Vec<String>)
    ensures
        texts(v@) == str_texts(parts@),
{
    let mut v: Vec<String> = Vec::new();
    let mut i: usize = 0;
    while i < parts.len()
        invariant
            i <= parts.len(),
            texts(v@) == str_texts(parts@.take(i as int)),
        decreases parts.len() - i,
    {
        let ghost before = v@;
        v.push(owned(parts[i]));
        assert(v@ == before.push(v@.last()));
        assert(texts(v@) =~= texts(before).push(parts@[i as int]@));
        assert(str_texts(parts@.take(i + 1)) =~= str_texts(parts@.take(i as int)).push(
            parts@[i as int]@,
        ));
        i = i + 1;
    }
    assert(parts@.take(parts.len() as int) =~= parts@);
    v
}

/// A copy of a list of strings.
pub fn copy_all(parts: &Vec<String>) -> (v: Vec<String>)
    ensures
        texts(v@) == texts(parts@),
{
    let mut v: Vec<String> = Vec::new();
    let mut i: usize = 0;
    while i < parts.len()
        invariant
            i <= parts.len(),
            texts(v@) == texts(parts@.take(i as int)),
        decreases parts.len() - i,
    {
        let ghost before = v@;
        v.push(owned(parts[i].as_str()));
        assert(v@ == before.push(v@.last()));
        assert(texts(v@) =~= texts(before).push(parts@[i as int]@));
        assert(texts(parts@.take(i + 1)) =~= texts(parts@.take(i as int)).push(
            parts@[i as int]@,
        ));
        i = i + 1;
    }
    assert(parts@.take(parts.len() as int) =~= parts@);
    v
}

/// An invocation of `program` with `args`.
pub fn invocation(program: &str, args: &[&str]) -> (inv: Invocation)
    ensures
        inv@.program == program@,
        inv@.args == str_texts(args@),
{
    Invocation { program: owned(program), args: owned_all(args) }
}

} // verus!
