//! Small verified helpers for working with strings.

use vstd::prelude::*;

verus! {

/// Character-by-character string equality, proved against the string views.
pub fn str_eq(a: &str, b: &str) -> (r: bool)
    ensures
        r == (a@ == b@),
{
    let a_len = a.unicode_len();
    let b_len = b.unicode_len();
    if a_len != b_len {
        return false;
    }
    let mut i: usize = 0;
    while i < a_len
        invariant
            i <= a_len,
            a_len == a@.len(),
            a_len == b@.len(),
            forall|j: int| 0 <= j < i ==> a@[j] == b@[j],
        decreases a_len - i,
    {
        if a.get_char(i) != b.get_char(i) {
            return false;
        }
        i += 1;
    }
    proof {
        assert(a@ =~= b@);
    }
    true
}

/// What `sanitize_csv_field` does to one character.
pub open spec fn spec_csv_char(c: char) -> char {
    if c == ',' {
        ' '
    } else {
        c
    }
}

/// A character sequence with every comma replaced by a space.
pub open spec fn spec_csv_sanitized(s: Seq<char>) -> Seq<char> {
    s.map_values(|c: char| spec_csv_char(c))
}

/// Replaces every comma by a space, so a free-text field cannot break a
/// comma-separated audit row.
pub fn sanitize_csv_field(s: &str) -> (r: String)
    ensures
        r@ == spec_csv_sanitized(s@),
{
    let len = s.unicode_len();
    let mut out = String::new();
    let mut i: usize = 0;
    while i < len
        invariant
            i <= len,
            len == s@.len(),
            out@ == spec_csv_sanitized(s@.take(i as int)),
        decreases len - i,
    {
        let c = s.get_char(i);
        if c == ',' {
            out.append(" ");
        } else {
            out.append(s.substring_char(i, i + 1));
        }
        proof {
            reveal_strlit(" ");
            assert(out@ =~= spec_csv_sanitized(s@.take(i as int)).push(spec_csv_char(
                s@[i as int],
            )));
            assert(spec_csv_sanitized(s@.take(i + 1int)) =~= spec_csv_sanitized(
                s@.take(i as int),
            ).push(spec_csv_char(s@[i as int])));
        }
        i += 1;
    }
    proof {
        assert(s@.take(len as int) =~= s@);
    }
    out
}

/// What `escape_json` turns one character into: backslashes and double
/// quotes gain a leading backslash, everything else is unchanged.
pub open spec fn spec_json_escaped_char(c: char) -> Seq<char> {
    if c == '\\' {
        seq!['\\', '\\']
    } else if c == '"' {
        seq!['\\', '"']
    } else {
        seq![c]
    }
}

/// The JSON string escaping of a whole character sequence.
pub open spec fn spec_json_escaped(s: Seq<char>) -> Seq<char>
    decreases s.len(),
{
    if s.len() == 0 {
        Seq::empty()
    } else {
        spec_json_escaped_char(s[0]) + spec_json_escaped(s.skip(1))
    }
}

/// Escapes backslashes and double quotes for embedding in a JSON string.
pub fn escape_json(s: &str) -> (r: String)
    ensures
        r@ == spec_json_escaped(s@),
{
    let len = s.unicode_len();
    let mut out = String::new();
    let mut i: usize = 0;
    while i < len
        invariant
            i <= len,
            len == s@.len(),
            out@ == spec_json_escaped(s@.take(i as int)),
        decreases len - i,
    {
        let c = s.get_char(i);
        if c == '\\' {
            out.append("\\\\");
        } else if c == '"' {
            out.append("\\\"");
        } else {
            out.append(s.substring_char(i, i + 1));
        }
        proof {
            reveal_strlit("\\\\");
            reveal_strlit("\\\"");
            lemma_json_escaped_snoc(s@.take(i + 1int));
            assert(s@.take(i + 1int).drop_last() =~= s@.take(i as int));
            assert(s@.take(i + 1int).last() == s@[i as int]);
            assert(out@ =~= spec_json_escaped(s@.take(i as int)) + spec_json_escaped_char(
                s@[i as int],
            ));
        }
        i += 1;
    }
    proof {
        assert(s@.take(len as int) =~= s@);
    }
    out
}

proof fn lemma_json_escaped_snoc(s: Seq<char>)
    requires
        s.len() > 0,
    ensures
        spec_json_escaped(s) == spec_json_escaped(s.drop_last()) + spec_json_escaped_char(
            s.last(),
        ),
    decreases s.len(),
{
    if s.len() == 1 {
        assert(s.drop_last() =~= Seq::<char>::empty());
        assert(s.skip(1) =~= Seq::<char>::empty());
        assert(spec_json_escaped(s) =~= spec_json_escaped_char(s[0]));
        assert(spec_json_escaped(s.drop_last()) + spec_json_escaped_char(s.last())
            =~= spec_json_escaped_char(s[0]));
    } else {
        lemma_json_escaped_snoc(s.skip(1));
        assert(s.skip(1).drop_last() =~= s.drop_last().skip(1));
        assert(s.skip(1).last() == s.last());
        assert(s.drop_last()[0] == s[0]);
        assert(s.drop_last().len() > 0);
        assert(spec_json_escaped(s) =~= spec_json_escaped(s.drop_last())
            + spec_json_escaped_char(s.last()));
    }
}

} // verus!
