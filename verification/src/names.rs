//! Names of the tables that exist only while an index is rebuilt.

use vstd::prelude::*;
use vstd::string::StringExecFns;
use rand::Rng;
use crate::catalog::INDEX_TABLE;

verus! {

/// The character of a single decimal digit: `0` for zero, and so on.
pub open spec fn digit(d: nat) -> char {
    (('0' as u8) + d) as u8 as char
}

/// The digit that a character stands for.
pub open spec fn digit_value(c: char) -> nat {
    ((c as u8) - ('0' as u8)) as nat
}

/// The decimal numeral of `n`, without leading zeros.
pub open spec fn decimal(n: nat) -> Seq<char>
    decreases n,
{
    if n < 10 {
        seq![digit(n)]
    } else {
        decimal(n / 10).push(digit(n % 10))
    }
}

/// The number that a decimal numeral denotes.
pub open spec fn numeral_value(s: Seq<char>) -> nat
    decreases s.len(),
{
    if s.len() == 0 {
        0
    } else {
        numeral_value(s.drop_last()) * 10 + digit_value(s.last())
    }
}

/// The name of the shadow table of one rebuild: `_`, the index name, `_`,
/// and the rebuild's number in decimal.
pub open spec fn shadow_name(index: Seq<char>, nonce: nat) -> Seq<char> {
    "_"@ + index + "_"@ + decimal(nonce)
}

/// The name under which the table that a rebuild replaces waits to be
/// dropped: the shadow table's name and `_`.
pub open spec fn retired_name(shadow: Seq<char>) -> Seq<char> {
    shadow + "_"@
}

fn digit_of(d: u32) -> (c: char)
    requires
        d < 10,
    ensures
        c == digit(d as nat),
{
    let code: u8 = ('0' as u8) + (d as u8);
    code as char
}

/// Appends the decimal numeral of `n` to `out`.
pub fn push_decimal(out: &mut String, n: u32)
    ensures
        final(out)@ == old(out)@ + decimal(n as nat),
    decreases n,
{
    if n >= 10 {
        push_decimal(out, n / 10);
    }
    out.push(digit_of(n % 10));
    assert(out@ == old(out)@ + decimal(n as nat));
}

/// Names the shadow table of the rebuild of `index` numbered `nonce`.
pub fn shadow_table(index: &str, nonce: u32) -> (s: String)
    ensures
        s@ == shadow_name(index@, nonce as nat),
{
    let mut out = String::from_str("_");
    out.append(index);
    out.append("_");
    push_decimal(&mut out, nonce);
    out
}

/// Names the table that holds the replaced entries until it is dropped.
pub fn retired_table(shadow: &str) -> (s: String)
    ensures
        s@ == retired_name(shadow@),
{
    let mut out = String::from_str(shadow);
    out.append("_");
    out
}

/// Draws a number from `rand::thread_rng()` by `Rng::gen::<u32>()`. The
/// generator is seeded by the operating system, so nothing is claimed of
/// the number.
#[verifier::external_body]
fn fresh_nonce() -> u32 {
    rand::thread_rng().gen::<u32>()
}

/// Names a shadow table for a new rebuild of `index`, numbered at random so
/// that concurrent rebuilds and leftovers of failed ones are unlikely to
/// share a name.
pub fn fresh_shadow_table(index: &str) -> (s: String)
    ensures
        exists|nonce: u32| s@ == shadow_name(index@, nonce as nat),
{
    let nonce = fresh_nonce();
    shadow_table(index, nonce)
}

/// A numeral has at least one digit.
pub proof fn lemma_decimal_nonempty(n: nat)
    ensures
        decimal(n).len() >= 1,
    decreases n,
{
    if n >= 10 {
        lemma_decimal_nonempty(n / 10);
    }
}

/// The numeral of a number denotes that number.
pub proof fn lemma_decimal_reads_back(n: nat)
    ensures
        numeral_value(decimal(n)) == n,
    decreases n,
{
    if n < 10 {
        assert(decimal(n).drop_last() =~= Seq::<char>::empty());
        assert(numeral_value(decimal(n).drop_last()) == 0);
    } else {
        lemma_decimal_reads_back(n / 10);
        assert(decimal(n).drop_last() =~= decimal(n / 10));
    }
}

/// Two rebuilds of one index under different numbers use different shadow
/// tables, and different retired tables.
pub proof fn law_rebuild_numbers_tell_tables_apart(index: Seq<char>, a: nat, b: nat)
    requires
        a != b,
    ensures
        shadow_name(index, a) != shadow_name(index, b),
        retired_name(shadow_name(index, a)) != retired_name(shadow_name(index, b)),
{
    lemma_decimal_reads_back(a);
    lemma_decimal_reads_back(b);
    reveal_strlit("_");
    let head = "_"@ + index + "_"@;
    assert(shadow_name(index, a).skip(head.len() as int) =~= decimal(a));
    assert(shadow_name(index, b).skip(head.len() as int) =~= decimal(b));
    assert(retired_name(shadow_name(index, a)).drop_last() =~= shadow_name(index, a));
    assert(retired_name(shadow_name(index, b)).drop_last() =~= shadow_name(index, b));
}

/// The three tables of a rebuild bear three different names: neither the
/// shadow table nor the retired table can be mistaken for the live table,
/// nor one for the other.
pub proof fn lemma_rebuild_names_differ(index: Seq<char>, nonce: nat)
    ensures
        shadow_name(index, nonce) != index,
        retired_name(shadow_name(index, nonce)) != index,
        retired_name(shadow_name(index, nonce)) != shadow_name(index, nonce),
{
    lemma_decimal_nonempty(nonce);
    reveal_strlit("_");
    assert(shadow_name(index, nonce).len() == index.len() + 2 + decimal(nonce).len());
    assert(retired_name(shadow_name(index, nonce)).len() == shadow_name(index, nonce).len() + 1);
}

/// Neither the shadow table nor the retired table of a rebuild can bear the
/// name of the catalog table: their names begin with `_`.
pub proof fn lemma_rebuild_names_are_free_of_catalog(index: Seq<char>, nonce: nat)
    ensures
        shadow_name(index, nonce) != INDEX_TABLE@,
        retired_name(shadow_name(index, nonce)) != INDEX_TABLE@,
{
    reveal_strlit("_");
    reveal_strlit("index");
    assert(shadow_name(index, nonce)[0] == '_');
    assert(retired_name(shadow_name(index, nonce))[0] == '_');
    assert(INDEX_TABLE@[0] == 'i');
}

} // verus!
