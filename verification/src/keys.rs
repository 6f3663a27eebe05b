//! Logical key events and the escape-sequence decoder.
//!
//! The decoder is a byte-at-a-time state machine: it consumes exactly the
//! bytes the escape grammar requires and never swallows the first byte of
//! the next keystroke. A read that returned no byte (the terminal's
//! inter-byte timeout) is reported through [`DecoderState::step_timeout`],
//! which is how a lone ESC key is told apart from an escape sequence.

use vstd::prelude::*;

verus! {

/// One logical key event, as produced by the decoder.
#[derive(Clone, Copy, PartialEq, Eq, Structural, Debug)]
pub enum EditorKey {
    ArrowLeft,
    ArrowRight,
    ArrowUp,
    ArrowDown,
    DelKey,
    HomeKey,
    EndKey,
    PageUp,
    PageDown,
    Backspace,
    Insert,
    /// A literal byte, passed through unchanged.
    K(u8),
}

/// Decoder position inside the escape grammar.
#[derive(Clone, Copy, PartialEq, Eq, Structural, Debug)]
pub enum DecoderState {
    /// Not inside any sequence.
    Start,
    /// Seen ESC.
    SawEsc,
    /// Seen ESC `[`.
    SawEscBracket,
    /// Seen ESC `[` and a digit `1`..=`8` (the digit byte is carried).
    SawEscBracketDigit(u8),
    /// Seen ESC `O`.
    SawEscO,
}

/// The key a final letter after ESC `[` maps to, if any.
pub open spec fn csi_letter_key(b: u8) -> Option<EditorKey> {
    if b == 68 {  // 'D'
        Some(EditorKey::ArrowLeft)
    } else if b == 67 {  // 'C'
        Some(EditorKey::ArrowRight)
    } else if b == 65 {  // 'A'
        Some(EditorKey::ArrowUp)
    } else if b == 66 {  // 'B'
        Some(EditorKey::ArrowDown)
    } else if b == 72 {  // 'H'
        Some(EditorKey::HomeKey)
    } else if b == 70 {  // 'F'
        Some(EditorKey::EndKey)
    } else {
        None
    }
}

/// The key a digit `1`..=`8` in ESC `[` digit `~` maps to.
pub open spec fn tilde_key(d: u8) -> EditorKey {
    if d == 49 || d == 55 {  // '1' or '7'
        EditorKey::HomeKey
    } else if d == 50 {  // '2'
        EditorKey::Insert
    } else if d == 51 {  // '3'
        EditorKey::DelKey
    } else if d == 52 || d == 56 {  // '4' or '8'
        EditorKey::EndKey
    } else if d == 53 {  // '5'
        EditorKey::PageUp
    } else {  // '6'
        EditorKey::PageDown
    }
}

/// One transition of the decoder on an input byte: the next state and the
/// key event emitted, if any. An unrecognized byte inside a sequence
/// abandons the sequence and reports the ESC that opened it as a literal.
pub open spec fn step_spec(st: DecoderState, b: u8) -> (DecoderState, Option<EditorKey>) {
    match st {
        DecoderState::Start => {
            if b == 0x1b {
                (DecoderState::SawEsc, None)
            } else if b == 0x7f {
                (DecoderState::Start, Some(EditorKey::Backspace))
            } else {
                (DecoderState::Start, Some(EditorKey::K(b)))
            }
        },
        DecoderState::SawEsc => {
            if b == 91 {  // '['
                (DecoderState::SawEscBracket, None)
            } else if b == 79 {  // 'O'
                (DecoderState::SawEscO, None)
            } else {
                (DecoderState::Start, Some(EditorKey::K(0x1b)))
            }
        },
        DecoderState::SawEscBracket => {
            if csi_letter_key(b) is Some {
                (DecoderState::Start, csi_letter_key(b))
            } else if 49 <= b && b <= 56 {  // '1' ..= '8'
                (DecoderState::SawEscBracketDigit(b), None)
            } else {
                (DecoderState::Start, Some(EditorKey::K(0x1b)))
            }
        },
        DecoderState::SawEscBracketDigit(d) => {
            if b == 126 {  // '~'
                (DecoderState::Start, Some(tilde_key(d)))
            } else {
                (DecoderState::Start, Some(EditorKey::K(0x1b)))
            }
        },
        DecoderState::SawEscO => {
            if b == 72 {  // 'H'
                (DecoderState::Start, Some(EditorKey::HomeKey))
            } else if b == 70 {  // 'F'
                (DecoderState::Start, Some(EditorKey::EndKey))
            } else {
                (DecoderState::Start, Some(EditorKey::K(0x1b)))
            }
        },
    }
}

/// The transition taken when the terminal reports no further byte: a
/// pending ESC (or abandoned sequence) becomes a literal ESC key.
pub open spec fn timeout_spec(st: DecoderState) -> (DecoderState, Option<EditorKey>) {
    match st {
        DecoderState::Start => (DecoderState::Start, None),
        _ => (DecoderState::Start, Some(EditorKey::K(0x1b))),
    }
}

/// Folds [`step_spec`] over a whole byte sequence, collecting every key
/// event emitted along the way.
pub open spec fn run_spec(st: DecoderState, bytes: Seq<u8>) -> (DecoderState, Seq<EditorKey>)
    decreases bytes.len(),
{
    if bytes.len() == 0 {
        (st, Seq::empty())
    } else {
        let (st1, k) = step_spec(st, bytes[0]);
        let (st2, ks) = run_spec(st1, bytes.drop_first());
        match k {
            Some(key) => (st2, seq![key] + ks),
            None => (st2, ks),
        }
    }
}

impl DecoderState {
    /// The state before any byte has been read.
    pub fn new() -> (r: DecoderState)
        ensures
            r == DecoderState::Start,
    {
        DecoderState::Start
    }

    /// Feeds one input byte to the decoder.
    pub fn step(&mut self, b: u8) -> (k: Option<EditorKey>)
        ensures
            *final(self) == step_spec(*old(self), b).0,
            k == step_spec(*old(self), b).1,
    {
        let (next, key) = match *self {
            DecoderState::Start => {
                if b == 0x1b {
                    (DecoderState::SawEsc, None)
                } else if b == 0x7f {
                    (DecoderState::Start, Some(EditorKey::Backspace))
                } else {
                    (DecoderState::Start, Some(EditorKey::K(b)))
                }
            },
            DecoderState::SawEsc => {
                if b == 91 {
                    (DecoderState::SawEscBracket, None)
                } else if b == 79 {
                    (DecoderState::SawEscO, None)
                } else {
                    (DecoderState::Start, Some(EditorKey::K(0x1b)))
                }
            },
            DecoderState::SawEscBracket => {
                if b == 68 {
                    (DecoderState::Start, Some(EditorKey::ArrowLeft))
                } else if b == 67 {
                    (DecoderState::Start, Some(EditorKey::ArrowRight))
                } else if b == 65 {
                    (DecoderState::Start, Some(EditorKey::ArrowUp))
                } else if b == 66 {
                    (DecoderState::Start, Some(EditorKey::ArrowDown))
                } else if b == 72 {
                    (DecoderState::Start, Some(EditorKey::HomeKey))
                } else if b == 70 {
                    (DecoderState::Start, Some(EditorKey::EndKey))
                } else if 49 <= b && b <= 56 {
                    (DecoderState::SawEscBracketDigit(b), None)
                } else {
                    (DecoderState::Start, Some(EditorKey::K(0x1b)))
                }
            },
            DecoderState::SawEscBracketDigit(d) => {
                if b == 126 {
                    let key = if d == 49 || d == 55 {
                        EditorKey::HomeKey
                    } else if d == 50 {
                        EditorKey::Insert
                    } else if d == 51 {
                        EditorKey::DelKey
                    } else if d == 52 || d == 56 {
                        EditorKey::EndKey
                    } else if d == 53 {
                        EditorKey::PageUp
                    } else {
                        EditorKey::PageDown
                    };
                    (DecoderState::Start, Some(key))
                } else {
                    (DecoderState::Start, Some(EditorKey::K(0x1b)))
                }
            },
            DecoderState::SawEscO => {
                if b == 72 {
                    (DecoderState::Start, Some(EditorKey::HomeKey))
                } else if b == 70 {
                    (DecoderState::Start, Some(EditorKey::EndKey))
                } else {
                    (DecoderState::Start, Some(EditorKey::K(0x1b)))
                }
            },
        };
        *self = next;
        key
    }

    /// Tells the decoder that the read returned no byte (timeout): a lone
    /// ESC is then reported as a literal key.
    pub fn step_timeout(&mut self) -> (k: Option<EditorKey>)
        ensures
            *final(self) == timeout_spec(*old(self)).0,
            k == timeout_spec(*old(self)).1,
    {
        match *self {
            DecoderState::Start => None,
            _ => {
                *self = DecoderState::Start;
                Some(EditorKey::K(0x1b))
            },
        }
    }
}

/// The decoder turns ESC `[` followed by one of the letters `D`, `C`,
/// `A`, `B`, `H`, `F` into exactly one navigation key — Left, Right, Up,
/// Down, Home or End respectively — consuming exactly those three bytes:
/// afterwards the decoder is back at [`DecoderState::Start`], so no byte
/// of the next keystroke is touched.
pub proof fn lemma_csi_letter_sequence(b: u8)
    requires
        csi_letter_key(b) is Some,
    ensures
        run_spec(DecoderState::Start, seq![0x1bu8, 91u8, b]) == (
            DecoderState::Start,
            seq![csi_letter_key(b).unwrap()],
        ),
{
    reveal_with_fuel(run_spec, 4);
    let bytes = seq![0x1bu8, 91u8, b];
    assert(bytes.drop_first() =~= seq![91u8, b]);
    assert(seq![91u8, b].drop_first() =~= seq![b]);
    assert(seq![b].drop_first() =~= Seq::<u8>::empty());
    assert(run_spec(DecoderState::Start, bytes).1 =~= seq![csi_letter_key(b).unwrap()]);
}

/// The decoder turns ESC `[` `d` `~`, for every digit `d` in
/// `{1,3,4,5,6,7,8}` (and `2` as well), into exactly one key event, the
/// one [`tilde_key`] maps that digit to, consuming exactly those four
/// bytes and returning to [`DecoderState::Start`].
pub proof fn lemma_csi_tilde_sequence(d: u8)
    requires
        49 <= d <= 56,
    ensures
        run_spec(DecoderState::Start, seq![0x1bu8, 91u8, d, 126u8]) == (
            DecoderState::Start,
            seq![tilde_key(d)],
        ),
{
    reveal_with_fuel(run_spec, 5);
    let bytes = seq![0x1bu8, 91u8, d, 126u8];
    assert(bytes.drop_first() =~= seq![91u8, d, 126u8]);
    assert(seq![91u8, d, 126u8].drop_first() =~= seq![d, 126u8]);
    assert(seq![d, 126u8].drop_first() =~= seq![126u8]);
    assert(seq![126u8].drop_first() =~= Seq::<u8>::empty());
    assert(csi_letter_key(d) is None);
    assert(run_spec(DecoderState::Start, bytes).1 =~= seq![tilde_key(d)]);
}

} // verus!
