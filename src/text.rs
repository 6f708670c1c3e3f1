//! Conversions between the host's text and the library's strings, and the
//! comma-joined command lists that plugins advertise.
use vstd::prelude::*;
use vstd::utf8::{decode_utf8, encode_utf8, valid_utf8};

verus! {

/// The pieces of `s` between commas, as a literal split produces them:
/// `n` commas give `n + 1` pieces, empty ones included.
pub open spec fn comma_pieces(s: Seq<char>) -> Seq<Seq<char>>
    decreases s.len(),
{
    if s.len() == 0 {
        seq![Seq::<char>::empty()]
    } else {
        let rest = comma_pieces(s.drop_last());
        if s.last() == ',' {
            rest.push(Seq::<char>::empty())
        } else {
            rest.update(rest.len() - 1, rest.last().push(s.last()))
        }
    }
}

/// The commands a comma-joined advertisement names: every non-empty piece.
/// No trimming is done, so spaces around a name are part of it.
pub open spec fn advertised_commands(s: Seq<char>) -> Set<Seq<char>> {
    Set::new(|c: Seq<char>| c.len() > 0 && comma_pieces(s).contains(c))
}

/// A list of strings without repetitions.
pub open spec fn distinct_texts(v: Seq<String>) -> bool {
    forall|i: int, j: int| 0 <= i < j < v.len() ==> v[i]@ != v[j]@
}

/// The set of texts a list holds.
pub open spec fn text_set(v: Seq<String>) -> Set<Seq<char>> {
    Set::new(|c: Seq<char>| exists|i: int| 0 <= i < v.len() && v[i]@ == c)
}

/// Why foreign text could not be taken in.
#[derive(Clone, Copy, Debug, PartialEq, Eq, Structural)]
pub enum DecodeError {
    /// The foreign side handed over no text at all.
    Null,
    /// The bytes are not valid UTF-8.
    InvalidUtf8,
}

/// Relies on `std::str::from_utf8`: it accepts exactly the valid UTF-8 byte
/// sequences, and the text it returns is what they encode.
#[verifier::external_body]
fn utf8_text(b: &[u8]) -> (r: Option<String>)
    ensures
        r is Some <==> valid_utf8(b@),
        r matches Some(t) ==> t@ == decode_utf8(b@),
{
    std::str::from_utf8(b).ok().map(|t| t.to_string())
}

/// Takes in text handed over as the bytes of a C string (without its
/// terminator); `None` stands for a null pointer.
pub fn decode_text(bytes: Option<&[u8]>) -> (r: Result<String, DecodeError>)
    ensures
        bytes is None ==> r == Err::<String, DecodeError>(DecodeError::Null),
        bytes matches Some(b) ==> (r is Ok <==> valid_utf8(b@)),
        bytes matches Some(b) && !valid_utf8(b@) ==> r == Err::<String, DecodeError>(
            DecodeError::InvalidUtf8,
        ),
        r matches Ok(t) ==> bytes matches Some(b) && t@ == decode_utf8(b@),
{
    match bytes {
        None => Err(DecodeError::Null),
        Some(b) => match utf8_text(b) {
            Some(t) => Ok(t),
            None => Err(DecodeError::InvalidUtf8),
        },
    }
}

/// The bytes of a C string that holds `s`, or `None` where `s` holds a NUL
/// character, which a C string cannot carry.
pub fn encode_text(s: &str) -> (r: Option<Vec<u8>>)
    ensures
        r is None <==> s@.contains('\0'),
        r matches Some(b) ==> b@ == encode_utf8(s@),
{
    let n = s.unicode_len();
    let mut i: usize = 0;
    while i < n
        invariant
            n == s@.len(),
            i <= n,
            forall|k: int| 0 <= k < i ==> s@[k] != '\0',
        decreases n - i,
    {
        if s.get_char(i) == '\0' {
            return None;
        }
        i = i + 1;
    }
    Some(s.as_bytes_vec())
}

/// Text survives the way out to a C string and back in unchanged.
pub proof fn lemma_text_round_trip(s: Seq<char>)
    ensures
        valid_utf8(encode_utf8(s)),
        decode_utf8(encode_utf8(s)) == s,
{
    vstd::utf8::encode_utf8_valid_utf8(s);
    vstd::utf8::encode_utf8_decode_utf8(s);
}

/// Whether `v` holds a string equal to `c`.
pub fn contains_text(v: &Vec<String>, c: &String) -> (r: bool)
    ensures
        r == text_set(v@).contains(c@),
{
    let mut i: usize = 0;
    while i < v.len()
        invariant
            i <= v.len(),
            forall|k: int| 0 <= k < i ==> v@[k]@ != c@,
        decreases v.len() - i,
    {
        if v[i] == *c {
            assert(text_set(v@).contains(c@)) by {
                assert(v@[i as int]@ == c@);
            }
            return true;
        }
        i = i + 1;
    }
    false
}

proof fn lemma_push_contains(d: Seq<Seq<char>>, p: Seq<char>)
    ensures
        forall|c: Seq<char>| d.push(p).contains(c) <==> (d.contains(c) || c == p),
{
    assert forall|c: Seq<char>| d.push(p).contains(c) <==> (d.contains(c) || c == p) by {
        if d.push(p).contains(c) {
            let k = choose|k: int| 0 <= k < d.push(p).len() && d.push(p)[k] == c;
            if k < d.len() {
                assert(d[k] == c);
            }
        }
        if c == p {
            assert(d.push(p)[d.len() as int] == c);
        }
        if d.contains(c) {
            let k = choose|k: int| 0 <= k < d.len() && d[k] == c;
            assert(d.push(p)[k] == c);
        }
    }
}

/// Adds `c` to a list of distinct non-empty names, unless it is empty or
/// already there.
fn add_command(out: &mut Vec<String>, c: String)
    requires
        distinct_texts(old(out)@),
        forall|k: int| 0 <= k < old(out)@.len() ==> old(out)@[k]@.len() > 0,
    ensures
        distinct_texts(final(out)@),
        forall|k: int| 0 <= k < final(out)@.len() ==> final(out)@[k]@.len() > 0,
        forall|x: Seq<char>| text_set(final(out)@).contains(x)
            <==> (text_set(old(out)@).contains(x) || (x == c@ && c@.len() > 0)),
{
    if c.unicode_len() > 0 && !contains_text(out, &c) {
        let ghost before = out@;
        out.push(c);
        proof {
            assert forall|x: Seq<char>| text_set(out@).contains(x)
                <==> (text_set(before).contains(x) || x == c@) by {
                if text_set(out@).contains(x) {
                    let k = choose|k: int| 0 <= k < out@.len() && out@[k]@ == x;
                    if k < before.len() {
                        assert(before[k]@ == x);
                    }
                }
                if text_set(before).contains(x) {
                    let k = choose|k: int| 0 <= k < before.len() && before[k]@ == x;
                    assert(out@[k]@ == x);
                }
                if x == c@ {
                    assert(out@[before.len() as int]@ == x);
                }
            }
        }
    }
}

/// Splits a comma-joined command list into its distinct, non-empty names,
/// in order of first appearance.
pub fn split_commands(s: &str) -> (r: Vec<String>)
    ensures
        text_set(r@) == advertised_commands(s@),
        distinct_texts(r@),
        forall|i: int| 0 <= i < r@.len() ==> r@[i]@.len() > 0,
{
    let n = s.unicode_len();
    let mut out: Vec<String> = Vec::new();
    let mut start: usize = 0;
    let mut i: usize = 0;
    let ghost mut done: Seq<Seq<char>> = Seq::empty();
    assert(text_set(out@) =~= Set::new(|c: Seq<char>| c.len() > 0 && done.contains(c)));
    assert(s@.take(0) =~= Seq::<char>::empty());
    while i < n
        invariant
            n == s@.len(),
            start <= i <= n,
            comma_pieces(s@.take(i as int)) == done.push(s@.subrange(start as int, i as int)),
            text_set(out@) == Set::new(|c: Seq<char>| c.len() > 0 && done.contains(c)),
            distinct_texts(out@),
            forall|k: int| 0 <= k < out@.len() ==> out@[k]@.len() > 0,
        decreases n - i,
    {
        let ch = s.get_char(i);
        proof {
            let t = s@.take(i as int + 1);
            assert(t.drop_last() =~= s@.take(i as int));
            assert(t.last() == ch);
        }
        if ch == ',' {
            let piece = s.substring_char(start, i);
            let owned = piece.to_string();
            let ghost p = s@.subrange(start as int, i as int);
            proof {
                lemma_push_contains(done, p);
            }
            add_command(&mut out, owned);
            proof {
                done = done.push(p);
            }
            assert(text_set(out@) =~= Set::new(|c: Seq<char>| c.len() > 0 && done.contains(c)));
            assert(s@.subrange(i as int + 1, i as int + 1) =~= Seq::<char>::empty());
            assert(comma_pieces(s@.take(i as int + 1)) =~= done.push(Seq::<char>::empty()));
            start = i + 1;
        } else {
            proof {
                assert(s@.subrange(start as int, i as int + 1) =~= s@.subrange(start as int, i as int).push(ch));
                assert(comma_pieces(s@.take(i as int + 1)) =~= done.push(s@.subrange(start as int, i as int + 1)));
            }
        }
        i = i + 1;
    }
    let piece = s.substring_char(start, n);
    let owned = piece.to_string();
    let ghost last = s@.subrange(start as int, n as int);
    proof {
        assert(s@.take(n as int) =~= s@);
        lemma_push_contains(done, last);
    }
    add_command(&mut out, owned);
    assert(text_set(out@) =~= advertised_commands(s@));
    out
}

} // verus!
