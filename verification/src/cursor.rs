//! The cursor codec: a cursor is the canonical decimal numeral of an
//! element's index in the sequence it was issued for.

use vstd::prelude::*;
use crate::decimal::{
    decimal, decimal_text, decimal_value, is_numeral, lemma_decimal_round_trip,
    lemma_numeral_unique, parse_decimal,
};

verus! {

/// A cursor that names no position: malformed, out of range for the machine,
/// or not issued for the sequence at hand.
#[derive(Clone, Copy, Debug, PartialEq, Eq, Structural)]
pub struct CursorDecodeError;

/// The text of the cursor for position `p`.
pub open spec fn cursor_text(p: nat) -> Seq<char> {
    decimal(p)
}

/// The position that a cursor text names, if it names one.
pub open spec fn cursor_position(s: Seq<char>) -> Option<nat> {
    if is_numeral(s) && decimal_value(s) <= usize::MAX {
        Some(decimal_value(s))
    } else {
        None
    }
}

/// The position that a cursor names within a sequence of `n` elements. A
/// well-formed cursor that points outside the sequence names nothing there.
pub open spec fn cursor_in(s: Seq<char>, n: nat) -> Option<nat> {
    match cursor_position(s) {
        Some(p) => if p < n {
            Some(p)
        } else {
            None
        },
        None => None,
    }
}

/// Round trip: decoding the cursor of a position gives that position back.
pub proof fn lemma_cursor_round_trip(p: nat)
    requires
        p <= usize::MAX,
    ensures
        cursor_position(cursor_text(p)) == Some(p),
{
    lemma_decimal_round_trip(p);
}

/// A position has one cursor only: a text that decodes to `p` is the text
/// that encoding `p` produces.
pub proof fn lemma_cursor_unique(s: Seq<char>, p: nat)
    requires
        cursor_position(s) == Some(p),
    ensures
        s == cursor_text(p),
{
    lemma_numeral_unique(p, s);
}

/// Two positions with the same cursor are the same position.
pub proof fn lemma_cursor_injective(p: nat, q: nat)
    requires
        cursor_text(p) == cursor_text(q),
    ensures
        p == q,
{
    lemma_decimal_round_trip(p);
    lemma_decimal_round_trip(q);
}

/// The cursor of position `position`.
pub fn encode(position: usize) -> (cursor: String)
    ensures
        cursor@ == cursor_text(position as nat),
{
    decimal_text(position as u64)
}

/// The position that `cursor` names, or the error for a text that names none.
pub fn decode(cursor: &str) -> (r: Result<usize, CursorDecodeError>)
    ensures
        match cursor_position(cursor@) {
            Some(p) => r == Ok::<usize, CursorDecodeError>(p as usize),
            None => r is Err,
        },
{
    match parse_decimal(cursor) {
        Some(v) => {
            if v <= usize::MAX as u64 {
                Ok(v as usize)
            } else {
                Err(CursorDecodeError)
            }
        },
        None => Err(CursorDecodeError),
    }
}

/// The position that `cursor` names in a sequence of `n` elements: positions
/// at or beyond `n` are refused like malformed text.
pub fn decode_within(cursor: &str, n: usize) -> (r: Result<usize, CursorDecodeError>)
    ensures
        match cursor_in(cursor@, n as nat) {
            Some(p) => r == Ok::<usize, CursorDecodeError>(p as usize),
            None => r is Err,
        },
{
    match decode(cursor) {
        Ok(p) => {
            if p < n {
                Ok(p)
            } else {
                Err(CursorDecodeError)
            }
        },
        Err(e) => Err(e),
    }
}

} // verus!
