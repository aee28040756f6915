//! Names for the files that exist only while a request is being handled.
//!
//! Each request gets names of its own, made from its identifier, inside a
//! directory that no download can reach.

use vstd::prelude::*;
use vstd::string::StringExecFns;
use crate::artifact::is_plain_name;
use crate::artifact::is_separator;

verus! {

/// The character that writes a digit.
pub open spec fn digit_char(d: nat) -> char {
    if d == 0 {
        '0'
    } else if d == 1 {
        '1'
    } else if d == 2 {
        '2'
    } else if d == 3 {
        '3'
    } else if d == 4 {
        '4'
    } else if d == 5 {
        '5'
    } else if d == 6 {
        '6'
    } else if d == 7 {
        '7'
    } else if d == 8 {
        '8'
    } else {
        '9'
    }
}

/// A number written in decimal, without leading zeros.
pub open spec fn decimal_text(n: nat) -> Seq<char>
    decreases n,
{
    if n < 10 {
        seq![digit_char(n)]
    } else {
        decimal_text(n / 10).push(digit_char(n % 10))
    }
}

/// The directory that holds the files in progress.
pub open spec fn scratch_prefix() -> Seq<char> {
    "uploads/"@
}

/// Where the upload of request `id` is kept until it has been compressed.
pub open spec fn upload_path_of(id: u64) -> Seq<char> {
    scratch_prefix() + decimal_text(id as nat) + ".tmp"@
}

/// Where the artifact of request `id` is written until it is complete.
pub open spec fn staging_path_of(id: u64) -> Seq<char> {
    scratch_prefix() + decimal_text(id as nat) + ".part"@
}

fn digit_str(d: u64) -> (text: &'static str)
    requires
        d < 10,
    ensures
        text@ == seq![digit_char(d as nat)],
{
    proof {
        reveal_strlit("0");
        reveal_strlit("1");
        reveal_strlit("2");
        reveal_strlit("3");
        reveal_strlit("4");
        reveal_strlit("5");
        reveal_strlit("6");
        reveal_strlit("7");
        reveal_strlit("8");
        reveal_strlit("9");
    }
    let text = if d == 0 {
        "0"
    } else if d == 1 {
        "1"
    } else if d == 2 {
        "2"
    } else if d == 3 {
        "3"
    } else if d == 4 {
        "4"
    } else if d == 5 {
        "5"
    } else if d == 6 {
        "6"
    } else if d == 7 {
        "7"
    } else if d == 8 {
        "8"
    } else {
        "9"
    };
    assert(text@ =~= seq![digit_char(d as nat)]);
    text
}

fn append_decimal(out: &mut String, n: u64)
    ensures
        final(out)@ == old(out)@ + decimal_text(n as nat),
    decreases n,
{
    if n >= 10 {
        append_decimal(out, n / 10);
    }
    out.append(digit_str(n % 10));
    proof {
        if n >= 10 {
            assert(old(out)@ + decimal_text((n / 10) as nat) + seq![digit_char((n % 10) as nat)]
                =~= old(out)@ + decimal_text(n as nat));
        }
    }
}

/// The path at which the upload of request `id` is kept until it has been
/// compressed.
pub fn upload_path(id: u64) -> (path: String)
    ensures
        path@ == upload_path_of(id),
{
    let mut path = String::from_str("uploads/");
    append_decimal(&mut path, id);
    path.append(".tmp");
    path
}

/// The path at which the artifact of request `id` is written until it is
/// complete.
pub fn staging_path(id: u64) -> (path: String)
    ensures
        path@ == staging_path_of(id),
{
    let mut path = String::from_str("uploads/");
    append_decimal(&mut path, id);
    path.append(".part");
    path
}

/// A number in decimal takes at least one character.
pub proof fn lemma_decimal_text_nonempty(n: nat)
    ensures
        decimal_text(n).len() >= 1,
        n >= 10 ==> decimal_text(n).len() >= 2,
    decreases n,
{
    if n >= 10 {
        lemma_decimal_text_nonempty(n / 10);
    }
}

/// Different numbers are written differently.
pub proof fn lemma_decimal_text_injective(a: nat, b: nat)
    requires
        decimal_text(a) == decimal_text(b),
    ensures
        a == b,
    decreases a,
{
    lemma_decimal_text_nonempty(a);
    lemma_decimal_text_nonempty(b);
    if a < 10 {
        assert(decimal_text(a)[0] == digit_char(a));
        assert(decimal_text(b)[0] == digit_char(b));
    } else {
        let ta = decimal_text(a / 10);
        let tb = decimal_text(b / 10);
        assert(decimal_text(a).last() == digit_char(a % 10));
        assert(decimal_text(b).last() == digit_char(b % 10));
        assert(decimal_text(a).drop_last() =~= ta);
        assert(decimal_text(b).drop_last() =~= tb);
        lemma_decimal_text_injective(a / 10, b / 10);
    }
}

/// Requests with different identifiers never share a file in progress:
/// neither their uploads nor their artifacts under construction.
pub proof fn lemma_scratch_paths_are_unique(a: u64, b: u64)
    requires
        a != b,
    ensures
        upload_path_of(a) != upload_path_of(b),
        staging_path_of(a) != staging_path_of(b),
{
    reveal_strlit("uploads/");
    reveal_strlit(".tmp");
    reveal_strlit(".part");
    let p = scratch_prefix();
    let ta = decimal_text(a as nat);
    let tb = decimal_text(b as nat);
    lemma_decimal_text_nonempty(a as nat);
    lemma_decimal_text_nonempty(b as nat);
    if upload_path_of(a) == upload_path_of(b) {
        assert(upload_path_of(a).len() == 8 + ta.len() + 4);
        assert(upload_path_of(b).len() == 8 + tb.len() + 4);
        assert(ta =~= upload_path_of(a).subrange(8, 8 + ta.len() as int));
        assert(tb =~= upload_path_of(b).subrange(8, 8 + tb.len() as int));
        lemma_decimal_text_injective(a as nat, b as nat);
    }
    if staging_path_of(a) == staging_path_of(b) {
        assert(staging_path_of(a).len() == 8 + ta.len() + 5);
        assert(staging_path_of(b).len() == 8 + tb.len() + 5);
        assert(ta =~= staging_path_of(a).subrange(8, 8 + ta.len() as int));
        assert(tb =~= staging_path_of(b).subrange(8, 8 + tb.len() as int));
        lemma_decimal_text_injective(a as nat, b as nat);
    }
}

/// An upload's scratch file is never the scratch file of an artifact, be it
/// of the same request or of another.
pub proof fn lemma_upload_is_not_staging(a: u64, b: u64)
    ensures
        upload_path_of(a) != staging_path_of(b),
{
    reveal_strlit(".tmp");
    reveal_strlit(".part");
    assert(upload_path_of(a).last() == 'p');
    assert(staging_path_of(b).last() == 't');
}

/// No download can reach a file in progress: its path is not a plain name.
pub proof fn lemma_scratch_paths_are_hidden(id: u64)
    ensures
        !is_plain_name(upload_path_of(id)),
        !is_plain_name(staging_path_of(id)),
{
    reveal_strlit("uploads/");
    assert(is_separator(upload_path_of(id)[7]));
    assert(is_separator(staging_path_of(id)[7]));
}

} // verus!
