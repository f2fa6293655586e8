//! The control surface: decoding `key=value` query strings and applying the
//! set-color command to the shared state.
//!
//! A query is a byte string of segments separated by `&`; a segment `k=v`
//! binds the one-byte key `k` to the value bytes `v`. Color commands carry
//! the three keys `r`, `g` and `b`, each bound to a decimal number in
//! 0..=255. A malformed or out-of-range number is a client error; missing
//! keys make the command a no-op.
use crate::color::Rgb;
use crate::state::State;
use vstd::prelude::*;

verus! {

/// `&`, the separator between query segments.
pub const QUERY_SEP: u8 = 38;

/// `=`, the separator between a key and its value.
pub const KEY_VALUE_SEP: u8 = 61;

/// `r`, the key of the red channel.
pub const KEY_R: u8 = 114;

/// `g`, the key of the green channel.
pub const KEY_G: u8 = 103;

/// `b`, the key of the blue channel.
pub const KEY_B: u8 = 98;

/// A malformed numeric value in a color command.
#[derive(Clone, Copy, PartialEq, Eq, Structural, Debug)]
pub struct ParseError;

/// Whether `b` is an ASCII decimal digit.
pub open spec fn is_ascii_digit(b: u8) -> bool {
    48 <= b && b <= 57
}

/// The numeric value of the digit `b`.
pub open spec fn digit_val(b: u8) -> int {
    b - 48
}

/// Whether every byte of `s` is a decimal digit.
pub open spec fn all_digits(s: Seq<u8>) -> bool {
    forall|i: int| 0 <= i < s.len() ==> is_ascii_digit(s[i])
}

/// The number the digit string `s` denotes, most significant digit first.
pub open spec fn digits_val(s: Seq<u8>) -> int
    decreases s.len(),
{
    if s.len() == 0 {
        0
    } else {
        digits_val(s.drop_last()) * 10 + digit_val(s.last())
    }
}

/// Whether `s` is a well-formed channel value: a nonempty digit string
/// denoting a number no greater than 255.
pub open spec fn is_valid_u8_digits(s: Seq<u8>) -> bool {
    s.len() >= 1 && all_digits(s) && digits_val(s) <= 255
}

proof fn lemma_digits_val_nonneg(s: Seq<u8>)
    requires
        all_digits(s),
    ensures
        digits_val(s) >= 0,
    decreases s.len(),
{
    if s.len() > 0 {
        assert forall|i: int| 0 <= i < s.drop_last().len() implies is_ascii_digit(
            s.drop_last()[i],
        ) by {
            assert(s.drop_last()[i] == s[i]);
        }
        lemma_digits_val_nonneg(s.drop_last());
    }
}

proof fn lemma_digits_val_step(s: Seq<u8>, i: int)
    requires
        0 <= i < s.len(),
    ensures
        digits_val(s.take(i + 1)) == digits_val(s.take(i)) * 10 + digit_val(s[i]),
{
    assert(s.take(i + 1).drop_last() =~= s.take(i));
    assert(s.take(i + 1).last() == s[i]);
}

proof fn lemma_digits_val_prefix_le(s: Seq<u8>, i: int)
    requires
        all_digits(s),
        0 <= i <= s.len(),
    ensures
        digits_val(s.take(i)) <= digits_val(s),
    decreases s.len() - i,
{
    if i < s.len() {
        lemma_digits_val_step(s, i);
        assert forall|j: int| 0 <= j < s.take(i).len() implies is_ascii_digit(
            s.take(i)[j],
        ) by {
            assert(s.take(i)[j] == s[j]);
        }
        lemma_digits_val_nonneg(s.take(i));
        lemma_digits_val_prefix_le(s, i + 1);
    } else {
        assert(s.take(i) =~= s);
    }
}

/// Parses the digit string in `q[start..end]` as a channel value.
/// Returns the denoted number exactly when the range is a well-formed
/// channel value, and nothing otherwise.
pub fn parse_u8_in(q: &[u8], start: usize, end: usize) -> (r: Option<u8>)
    requires
        start <= end <= q@.len(),
    ensures
        is_valid_u8_digits(q@.subrange(start as int, end as int)) ==> r == Some(
            digits_val(q@.subrange(start as int, end as int)) as u8,
        ),
        !is_valid_u8_digits(q@.subrange(start as int, end as int)) ==> r is None,
{
    let ghost s = q@.subrange(start as int, end as int);
    if start == end {
        return None;
    }
    let mut acc: u32 = 0;
    let mut i: usize = start;
    while i < end
        invariant
            start <= i <= end <= q@.len(),
            s == q@.subrange(start as int, end as int),
            s.len() == end - start,
            all_digits(s.take(i - start)),
            acc as int == digits_val(s.take(i - start)),
            acc <= 255,
        decreases end - i,
    {
        let c = q[i];
        assert(s[i - start] == c);
        if c < 48 || c > 57 {
            assert(!is_ascii_digit(s[i - start]));
            return None;
        }
        proof {
            lemma_digits_val_step(s, i - start);
        }
        acc = acc * 10 + (c - 48) as u32;
        if acc > 255 {
            proof {
                if is_valid_u8_digits(s) {
                    lemma_digits_val_prefix_le(s, i + 1 - start);
                }
            }
            return None;
        }
        i = i + 1;
    }
    proof {
        assert(s.take(end - start) =~= s);
    }
    Some(acc as u8)
}

/// The index of the end of the segment that starts at `i`: the first `&` at
/// or after `i`, or the end of the query.
pub open spec fn seg_end(q: Seq<u8>, i: int) -> int
    decreases q.len() - i,
{
    if i < 0 {
        i
    } else if i >= q.len() {
        q.len() as int
    } else if q[i] == QUERY_SEP {
        i
    } else {
        seg_end(q, i + 1)
    }
}

/// The value range bound to `key` by the segments of `q` at or after `i`.
/// A later binding of the same key overrides an earlier one.
pub open spec fn spec_lookup(q: Seq<u8>, i: int, key: u8) -> Option<(int, int)>
    decreases q.len() - i,
{
    if i < 0 || i >= q.len() {
        None
    } else {
        let e0 = seg_end(q, i);
        let e = if e0 < i {
            i
        } else if e0 > q.len() {
            q.len() as int
        } else {
            e0
        };
        let here = if e - i >= 2 && q[i] == key && q[i + 1] == KEY_VALUE_SEP {
            Some((i + 2, e))
        } else {
            None
        };
        if e >= q.len() {
            here
        } else {
            let rest = spec_lookup(q, e + 1, key);
            if rest is Some {
                rest
            } else {
                here
            }
        }
    }
}

fn find_seg_end(q: &[u8], start: usize) -> (e: usize)
    requires
        start <= q@.len(),
    ensures
        e == seg_end(q@, start as int),
        start <= e <= q@.len(),
{
    let mut j = start;
    while j < q.len()
        invariant
            start <= j <= q@.len(),
            seg_end(q@, start as int) == seg_end(q@, j as int),
        decreases q@.len() - j,
    {
        if q[j] == QUERY_SEP {
            return j;
        }
        j = j + 1;
    }
    j
}

/// Finds the value range bound to `key` in the whole query.
pub fn lookup_param(q: &[u8], key: u8) -> (r: Option<(usize, usize)>)
    ensures
        spec_lookup(q@, 0, key) is Some <==> r is Some,
        r matches Some(v) ==> spec_lookup(q@, 0, key) == Some((v.0 as int, v.1 as int))
            && v.0 <= v.1 <= q@.len(),
{
    let mut i: usize = 0;
    let mut found: Option<(usize, usize)> = None;
    let ghost target = spec_lookup(q@, 0, key);
    while i < q.len()
        invariant
            i <= q@.len(),
            target == spec_lookup(q@, 0, key),
            match spec_lookup(q@, i as int, key) {
                Some(p) => target == Some(p),
                None => match found {
                    Some(v) => target == Some((v.0 as int, v.1 as int)) && v.0 <= v.1
                        <= q@.len(),
                    None => target is None,
                },
            },
        decreases q@.len() - i,
    {
        let e = find_seg_end(q, i);
        if e - i >= 2 && q[i] == key && q[i + 1] == KEY_VALUE_SEP {
            found = Some((i + 2, e));
        }
        if e < q.len() {
            i = e + 1;
        } else {
            i = q.len();
        }
    }
    found
}

/// The value bytes bound to `key` in `q`, if the key occurs.
pub open spec fn param_value(q: Seq<u8>, key: u8) -> Option<Seq<u8>> {
    match spec_lookup(q, 0, key) {
        Some(p) => Some(q.subrange(p.0, p.1)),
        None => None,
    }
}

/// Whether `key` is either absent from `q` or bound to a well-formed
/// channel value.
pub open spec fn param_acceptable(q: Seq<u8>, key: u8) -> bool {
    match param_value(q, key) {
        Some(v) => is_valid_u8_digits(v),
        None => true,
    }
}

/// Whether every channel key of a color command is acceptable: the whole
/// query parses without a client error.
pub open spec fn color_query_acceptable(q: Seq<u8>) -> bool {
    param_acceptable(q, KEY_R) && param_acceptable(q, KEY_G) && param_acceptable(q, KEY_B)
}

/// Whether all three channel keys occur in `q`.
pub open spec fn all_channels_present(q: Seq<u8>) -> bool {
    param_value(q, KEY_R) is Some && param_value(q, KEY_G) is Some && param_value(q, KEY_B) is Some
}

/// The number bound to `key` in `q`; zero where the key is absent.
pub open spec fn spec_channel(q: Seq<u8>, key: u8) -> u8 {
    match param_value(q, key) {
        Some(v) => digits_val(v) as u8,
        None => 0,
    }
}

/// The color a well-formed, complete color command denotes.
pub open spec fn spec_query_color(q: Seq<u8>) -> Rgb {
    Rgb { r: spec_channel(q, KEY_R), g: spec_channel(q, KEY_G), b: spec_channel(q, KEY_B) }
}

/// Looks up `key` and parses its value. Absent key: `Ok(None)`. Present,
/// well-formed value: `Ok(Some(number))`. Present, malformed: `Err`.
pub fn get_param_u8(q: &[u8], key: u8) -> (res: Result<Option<u8>, ParseError>)
    ensures
        res is Ok <==> param_acceptable(q@, key),
        res == Ok::<Option<u8>, ParseError>(None) <==> param_value(q@, key) is None,
        res matches Ok(Some(v)) ==> (param_value(q@, key) matches Some(s) && v
            == digits_val(s) as u8 && is_valid_u8_digits(s)),
{
    match lookup_param(q, key) {
        None => Ok(None),
        Some((s, e)) => match parse_u8_in(q, s, e) {
            Some(v) => Ok(Some(v)),
            None => Err(ParseError),
        },
    }
}

/// Applies a color command query to the state. If any present channel value
/// is malformed the command fails and the state is untouched; if all three
/// channels are present and well-formed the static color is overwritten;
/// otherwise the command is a no-op.
pub fn apply_color_query(state: &mut State, query: &[u8]) -> (res: Result<(), ParseError>)
    ensures
        res is Ok <==> color_query_acceptable(query@),
        res is Err ==> *final(state) == *old(state),
        !all_channels_present(query@) ==> *final(state) == *old(state),
        res is Ok && all_channels_present(query@) ==> *final(state) == (State {
            led_color: spec_query_color(query@),
            ..*old(state)
        }),
{
    let rv = match get_param_u8(query, KEY_R) {
        Ok(v) => v,
        Err(e) => {
            return Err(e);
        },
    };
    let gv = match get_param_u8(query, KEY_G) {
        Ok(v) => v,
        Err(e) => {
            return Err(e);
        },
    };
    let bv = match get_param_u8(query, KEY_B) {
        Ok(v) => v,
        Err(e) => {
            return Err(e);
        },
    };
    match (rv, gv, bv) {
        (Some(r), Some(g), Some(b)) => {
            state.set_color(Rgb { r, g, b });
        },
        _ => {},
    }
    Ok(())
}

} // verus!
