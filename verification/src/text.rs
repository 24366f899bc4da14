//! Small building blocks for assembling text.

use vstd::prelude::*;

verus! {

/// `String::push` appends exactly one character to the end of the string.
pub assume_specification[ String::push ](s: &mut String, ch: char)
    ensures
        final(s)@ == old(s)@.push(ch),
;

/// Equality of two string slices, as `str`'s `==` decides it: the slices are
/// equal exactly when they hold the same characters in the same order.
#[verifier::external_body]
pub(crate) fn same_text(a: &str, b: &str) -> (r: bool)
    ensures
        r == (a@ == b@),
{
    a == b
}

/// The text `s` with every double quote doubled.
pub open spec fn doubled_quotes(s: Seq<char>) -> Seq<char>
    decreases s.len(),
{
    if s.len() == 0 {
        Seq::empty()
    } else if s.last() == '"' {
        doubled_quotes(s.drop_last()).push('"').push('"')
    } else {
        doubled_quotes(s.drop_last()).push(s.last())
    }
}

/// Appends `s` to `out`, doubling every double quote on the way.
pub fn push_doubling_quotes(out: &mut String, s: &str)
    ensures
        final(out)@ == old(out)@ + doubled_quotes(s@),
{
    let ghost start = out@;
    let mut it = s.chars();
    let ghost all = s@;
    for c in iter: it
        invariant
            iter.seq() == all,
            out@ == start + doubled_quotes(all.take(iter.index())),
    {
        proof {
            let k = iter.index();
            assert(all.take(k + 1).drop_last() == all.take(k));
            assert(all.take(k + 1).last() == c);
        }
        if c == '"' {
            out.push('"');
            out.push('"');
        } else {
            out.push(c);
        }
    }
    proof {
        assert(all.take(all.len() as int) == all);
    }
}

/// What a reader of SQL makes of the inside of a quoted identifier: two
/// double quotes in a row stand for one, and a double quote on its own would
/// end the identifier, which leaves nothing to read it as.
pub open spec fn read_quoted(s: Seq<char>) -> Option<Seq<char>>
    decreases s.len(),
{
    if s.len() == 0 {
        Some(Seq::empty())
    } else if s[0] != '"' {
        match read_quoted(s.skip(1)) {
            Some(rest) => Some(seq![s[0]] + rest),
            None => None,
        }
    } else if s.len() >= 2 && s[1] == '"' {
        match read_quoted(s.skip(2)) {
            Some(rest) => Some(seq!['"'] + rest),
            None => None,
        }
    } else {
        None
    }
}

/// Doubling the quotes of a text made of two parts doubles the quotes of
/// each part.
pub proof fn lemma_doubled_quotes_of_parts(a: Seq<char>, b: Seq<char>)
    ensures
        doubled_quotes(a + b) == doubled_quotes(a) + doubled_quotes(b),
    decreases b.len(),
{
    if b.len() == 0 {
        assert(a + b =~= a);
        assert(doubled_quotes(a) + doubled_quotes(b) =~= doubled_quotes(a));
    } else {
        let whole = a + b;
        assert(whole.drop_last() =~= a + b.drop_last());
        assert(whole.last() == b.last());
        lemma_doubled_quotes_of_parts(a, b.drop_last());
        assert(doubled_quotes(whole) =~= doubled_quotes(a) + doubled_quotes(b));
    }
}

/// A name with its quotes doubled reads back as that name, whatever
/// characters it holds: nothing in it ends the identifier early.
pub proof fn law_doubled_quotes_read_back(name: Seq<char>)
    ensures
        read_quoted(doubled_quotes(name)) == Some(name),
    decreases name.len(),
{
    if name.len() == 0 {
        assert(doubled_quotes(name) =~= Seq::<char>::empty());
        assert(name =~= Seq::<char>::empty());
    } else {
        let head = name.take(1);
        let rest = name.skip(1);
        assert(name =~= head + rest);
        lemma_doubled_quotes_of_parts(head, rest);
        law_doubled_quotes_read_back(rest);
        assert(head.drop_last() =~= Seq::<char>::empty());
        assert(doubled_quotes(head.drop_last()) =~= Seq::<char>::empty());
        assert(head.last() == name[0]);
        let written = doubled_quotes(name);
        if name[0] == '"' {
            assert(doubled_quotes(head) =~= seq!['"', '"']);
            assert(written.skip(2) =~= doubled_quotes(rest));
            assert(seq!['"'] + rest =~= name);
        } else {
            assert(doubled_quotes(head) =~= seq![name[0]]);
            assert(written.skip(1) =~= doubled_quotes(rest));
            assert(seq![name[0]] + rest =~= name);
        }
    }
}

/// No two names are written alike.
pub proof fn law_doubled_quotes_tell_names_apart(a: Seq<char>, b: Seq<char>)
    requires
        doubled_quotes(a) == doubled_quotes(b),
    ensures
        a == b,
{
    law_doubled_quotes_read_back(a);
    law_doubled_quotes_read_back(b);
}

} // verus!
