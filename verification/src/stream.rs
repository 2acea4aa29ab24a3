//! Decoding a whole instruction stream.
//!
//! The stream is a finite byte sequence consumed as big-endian 16-bit
//! words (first byte high). An odd trailing byte means end-of-stream, not
//! an error. Each word is decoded to one output line; a word that is the
//! first half of a 32-bit instruction contributes an explanatory notice
//! and the following word is consumed without being interpreted.

use vstd::prelude::*;
use vstd::string::StringExecFns;
use crate::classify::is_wide_prefix;
use crate::decode::{decode_instruction, spec_decode_line};

verus! {

broadcast use vstd::seq_lib::group_seq_properties;

/// The big-endian word made of a high and a low byte.
pub open spec fn word_of(hi: u8, lo: u8) -> u16 {
    ((hi as u16) << 8u16) | (lo as u16)
}

/// The word starting at byte position `pos`, if two bytes remain there.
pub open spec fn spec_word_at(bytes: Seq<u8>, pos: int) -> Option<u16> {
    if 0 <= pos && pos + 2 <= bytes.len() {
        Some(word_of(bytes[pos], bytes[pos + 1]))
    } else {
        None
    }
}

/// The notice emitted for a word that begins a 32-bit instruction.
pub open spec fn wide_notice() -> Seq<char> {
    "32-BIT INSTRUCTION. NEXT WORD IGNORED!"@
}

/// The lines produced by decoding a byte stream from its start: one line
/// per complete 16-bit instruction, and for each 32-bit prefix the notice,
/// with the following word (whatever it holds) skipped undecoded.
pub open spec fn spec_lines(bytes: Seq<u8>) -> Seq<Seq<char>>
    decreases bytes.len(),
{
    if bytes.len() < 2 {
        Seq::empty()
    } else {
        let w = word_of(bytes[0], bytes[1]);
        if is_wide_prefix(w) {
            seq![wide_notice()] + (if bytes.len() >= 4 {
                spec_lines(bytes.skip(4))
            } else {
                Seq::empty()
            })
        } else {
            seq![spec_decode_line(w)] + spec_lines(bytes.skip(2))
        }
    }
}

/// Reads the next 16-bit word, or reports that none remains: two bytes,
/// big-endian, starting at `pos`. A single trailing byte is end-of-stream.
pub fn get_instruction(code: &Vec<u8>, pos: usize) -> (r: Option<u16>)
    ensures
        r == spec_word_at(code@, pos as int),
{
    if pos < code.len() && code.len() - pos >= 2 {
        let hi = code[pos];
        let lo = code[pos + 1];
        Some(((hi as u16) << 8u16) | (lo as u16))
    } else {
        None
    }
}

fn wide_notice_string() -> (r: String)
    ensures
        r@ == wide_notice(),
{
    String::from_str("32-BIT INSTRUCTION. NEXT WORD IGNORED!")
}

/// Decodes a whole byte stream into its rendered lines.
pub fn decode_stream(code: &Vec<u8>) -> (lines: Vec<String>)
    ensures
        lines@.map_values(|s: String| s@) == spec_lines(code@),
{
    let mut lines: Vec<String> = Vec::new();
    let mut pos: usize = 0;
    proof {
        assert(code@.skip(0) =~= code@);
    }
    while pos <= code.len() && code.len() - pos >= 2
        invariant
            pos <= code.len(),
            spec_lines(code@) == lines@.map_values(|s: String| s@) + spec_lines(
                code@.skip(pos as int),
            ),
        decreases code.len() - pos,
    {
        let ghost prev_map = lines@.map_values(|s: String| s@);
        let ghost rest = code@.skip(pos as int);
        let w = get_instruction(code, pos).unwrap();
        proof {
            assert(rest.len() == code@.len() - pos);
            assert(rest[0] == code@[pos as int]);
            assert(rest[1] == code@[pos as int + 1]);
        }
        match decode_instruction(w) {
            Some(line) => {
                proof {
                    assert(rest.skip(2) =~= code@.skip(pos as int + 2));
                    assert(spec_lines(rest) == seq![spec_decode_line(w)] + spec_lines(
                        code@.skip(pos as int + 2),
                    ));
                }
                lines.push(line);
                pos = pos + 2;
                proof {
                    assert(lines@.map_values(|s: String| s@) =~= prev_map.push(
                        spec_decode_line(w),
                    ));
                    assert(prev_map + spec_lines(rest) =~= prev_map.push(spec_decode_line(w))
                        + spec_lines(code@.skip(pos as int)));
                }
            },
            None => {
                lines.push(wide_notice_string());
                if code.len() - pos >= 4 {
                    proof {
                        assert(rest.len() >= 4);
                        assert(rest.skip(4) =~= code@.skip(pos as int + 4));
                        assert(spec_lines(rest) == seq![wide_notice()] + spec_lines(
                            code@.skip(pos as int + 4),
                        ));
                    }
                    pos = pos + 4;
                } else {
                    proof {
                        assert(rest.len() < 4);
                        assert(spec_lines(rest) == seq![wide_notice()] + Seq::<Seq<char>>::empty());
                        assert(code@.skip(code@.len() as int).len() == 0);
                        assert(spec_lines(code@.skip(code@.len() as int)) == Seq::<
                            Seq<char>,
                        >::empty());
                    }
                    pos = code.len();
                }
                proof {
                    assert(lines@.map_values(|s: String| s@) =~= prev_map.push(wide_notice()));
                    assert(prev_map + spec_lines(rest) =~= prev_map.push(wide_notice())
                        + spec_lines(code@.skip(pos as int)));
                }
            },
        }
    }
    proof {
        assert(code@.skip(pos as int).len() < 2);
        assert(spec_lines(code@.skip(pos as int)) == Seq::<Seq<char>>::empty());
        assert(lines@.map_values(|s: String| s@) + Seq::<Seq<char>>::empty() =~= lines@.map_values(
            |s: String| s@,
        ));
    }
    lines
}

/// A word whose top five bits mark it as a 32-bit prefix makes the stream
/// skip exactly one following word, whatever that word holds: the lines of
/// the stream do not depend on the two skipped bytes, and equal the notice
/// followed by the lines of the remainder.
pub proof fn lemma_wide_prefix_skips_one_word(b0: u8, b1: u8, x0: u8, x1: u8, y0: u8, y1: u8, rest: Seq<u8>)
    requires
        is_wide_prefix(word_of(b0, b1)),
    ensures
        spec_lines(seq![b0, b1, x0, x1] + rest) == seq![wide_notice()] + spec_lines(rest),
        spec_lines(seq![b0, b1, x0, x1] + rest) == spec_lines(seq![b0, b1, y0, y1] + rest),
{
    let s1 = seq![b0, b1, x0, x1] + rest;
    let s2 = seq![b0, b1, y0, y1] + rest;
    assert(s1.len() == 4 + rest.len() && s1[0] == b0 && s1[1] == b1);
    assert(s2.len() == 4 + rest.len() && s2[0] == b0 && s2[1] == b1);
    assert(s1.skip(4) =~= rest);
    assert(s2.skip(4) =~= rest);
}

} // verus!
