//! The name builder: drives the scalar decoder and the folding table over one
//! raw byte sequence, applying the ASCII separator, dot, and hyphen rules.

use crate::decode::char_from_u32;
use crate::decode::convert_four_to_u32;
use crate::decode::convert_three_to_u32;
use crate::decode::convert_two_to_u32;
use crate::fold::ascii_byte;
use crate::fold::classify;
use crate::fold::fold_content_after;
use crate::fold::fold_emission;
use crate::fold::fold_outcome;
use crate::fold::lemma_fold_outputs_ascii;
use crate::fold::similar_content_after;
use crate::fold::similar_emission;
use crate::fold::FoldOutcome;
use vstd::prelude::*;
use vstd::utf8::codepoint_width_2;
use vstd::utf8::codepoint_width_3;
use vstd::utf8::codepoint_width_4;
use vstd::utf8::is_scalar;

verus! {

/// The state of the name builder between two input bytes.
pub ghost struct BuilderState {
    /// The bytes emitted so far; always ASCII.
    pub out: Seq<u8>,
    /// Whether the most recent emission counted as content. A separator or
    /// hyphen is appended only when this flag is set.
    pub content: bool,
    /// The buffered bytes of a multi-byte sequence still being collected.
    pub pending: Seq<u8>,
}

/// The builder's starting state: nothing emitted, no content, empty buffer.
pub open spec fn init_state() -> BuilderState {
    BuilderState { out: Seq::empty(), content: false, pending: Seq::empty() }
}

/// The ASCII separator classes: every byte in them folds into a collapsed
/// underscore. Hyphen (45) and dot (46) have rules of their own, and the
/// remaining ASCII bytes, the alphanumerics, pass through verbatim.
pub open spec fn is_ascii_separator(b: u8) -> bool {
    b <= 44 || b == 47 || (58 <= b && b <= 64) || (91 <= b && b <= 96) || (123 <= b && b <= 127)
}

/// How many bytes the decoder collects for a buffered sequence whose first
/// byte is `lead`: the count declared by the lead byte's high bits.
pub open spec fn declared_len(lead: u8) -> int {
    if lead >= 240 {
        4
    } else if lead >= 224 {
        3
    } else {
        2
    }
}

/// The codepoint packed from the payload bits of a completed buffer.
pub open spec fn buffered_codepoint(p: Seq<u8>) -> u32
    recommends
        2 <= p.len() <= 4,
{
    if p.len() == 2 {
        codepoint_width_2(p[0], p[1])
    } else if p.len() == 3 {
        codepoint_width_3(p[0], p[1], p[2])
    } else {
        codepoint_width_4(p[0], p[1], p[2], p[3])
    }
}

/// The scalar decoded from a completed buffer, or `None` when the packed bit
/// pattern is not a Unicode scalar (a surrogate or out of range).
pub open spec fn decoded_char(p: Seq<u8>) -> Option<char> {
    if is_scalar(buffered_codepoint(p)) {
        Option::Some(buffered_codepoint(p) as char)
    } else {
        Option::None
    }
}

/// One ASCII byte applied to the builder: dot appends itself unconditionally,
/// hyphen survives only after content, separators collapse into one
/// underscore after content, and alphanumerics pass through.
pub open spec fn ascii_step(s: BuilderState, b: u8) -> BuilderState {
    if b == 46 {
        BuilderState { out: s.out + seq![46u8], content: false, ..s }
    } else if b == 45 {
        BuilderState {
            out: s.out + if s.content {
                seq![45u8]
            } else {
                Seq::empty()
            },
            content: false,
            ..s
        }
    } else if is_ascii_separator(b) {
        BuilderState {
            out: s.out + if s.content {
                seq![95u8]
            } else {
                Seq::empty()
            },
            content: false,
            ..s
        }
    } else {
        BuilderState { out: s.out + seq![b], content: true, ..s }
    }
}

/// A completed multi-byte sequence applied to the builder: the decoded scalar
/// is folded through the table; a failed decode emits nothing and leaves the
/// content flag unchanged. The buffer is cleared either way.
pub open spec fn scalar_step(s: BuilderState, curr: Option<char>) -> BuilderState {
    BuilderState {
        out: s.out + similar_emission(curr, s.content),
        content: similar_content_after(curr, s.content),
        pending: Seq::empty(),
    }
}

/// One input byte applied to the builder.
pub open spec fn name_step(s: BuilderState, b: u8) -> BuilderState {
    if s.pending.len() == 0 && b < 128 {
        ascii_step(s, b)
    } else {
        let p = s.pending.push(b);
        if p.len() >= declared_len(p[0]) {
            scalar_step(s, decoded_char(p))
        } else {
            BuilderState { pending: p, ..s }
        }
    }
}

/// The builder run over a whole byte sequence.
pub open spec fn run_builder(s: BuilderState, bytes: Seq<u8>) -> BuilderState
    decreases bytes.len(),
{
    if bytes.len() == 0 {
        s
    } else {
        run_builder(name_step(s, bytes[0]), bytes.drop_first())
    }
}

/// The normalized form of one raw name: what the builder emits over it,
/// starting from the initial state. A trailing incomplete multi-byte buffer
/// is discarded.
pub open spec fn normalized(bytes: Seq<u8>) -> Seq<u8> {
    run_builder(init_state(), bytes).out
}

/// Running the builder over `bytes` and then one more byte is one step on the
/// state the run reached.
pub proof fn lemma_run_builder_snoc(s: BuilderState, bytes: Seq<u8>, b: u8)
    ensures
        run_builder(s, bytes.push(b)) == name_step(run_builder(s, bytes), b),
    decreases bytes.len(),
{
    if bytes.len() == 0 {
        assert(bytes.push(b)[0] == b);
        assert(bytes.push(b).drop_first() =~= Seq::<u8>::empty());
        assert(run_builder(s, bytes.push(b)) == run_builder(
            name_step(s, b),
            Seq::<u8>::empty(),
        ));
        assert(run_builder(name_step(s, b), Seq::<u8>::empty()) == name_step(s, b));
        assert(run_builder(s, bytes) == s);
    } else {
        assert(bytes.push(b)[0] == bytes[0]);
        assert(bytes.push(b).drop_first() =~= bytes.drop_first().push(b));
        assert(run_builder(s, bytes.push(b)) == run_builder(
            name_step(s, bytes[0]),
            bytes.drop_first().push(b),
        ));
        lemma_run_builder_snoc(name_step(s, bytes[0]), bytes.drop_first(), b);
        assert(run_builder(s, bytes) == run_builder(name_step(s, bytes[0]), bytes.drop_first()));
    }
}

/// Convert an ASCII character back to its byte.
fn ascii_exec(c: char) -> (r: u8)
    requires
        (c as u32) < 128,
    ensures
        r == ascii_byte(c),
{
    (c as u32) as u8
}

/// Fold one decoded scalar into the byte accumulator, returning the new
/// content flag.
fn fold_push(c: char, out: &mut Vec<u8>, content: bool) -> (r: bool)
    ensures
        final(out)@ == old(out)@ + fold_emission(fold_outcome(c), content),
        r == fold_content_after(fold_outcome(c)),
{
    let o = classify(c);
    proof {
        lemma_fold_outputs_ascii(c);
    }
    match o {
        FoldOutcome::Keep(k) => {
            out.push(ascii_exec(k));
            true
        },
        FoldOutcome::KeepPair(a, b) => {
            out.push(ascii_exec(a));
            out.push(ascii_exec(b));
            proof {
                assert(old(out)@ + fold_emission(fold_outcome(c), content) =~= old(out)@.push(
                    ascii_byte(a),
                ).push(ascii_byte(b)));
            }
            true
        },
        FoldOutcome::Ignore => {
            proof {
                assert(old(out)@ + fold_emission(fold_outcome(c), content) =~= old(out)@);
            }
            true
        },
        FoldOutcome::Literal(l) => {
            out.push(ascii_exec(l));
            false
        },
        FoldOutcome::Collapse => {
            if content {
                out.push(95);
            } else {
                proof {
                    assert(old(out)@ + fold_emission(fold_outcome(c), content) =~= old(out)@);
                }
            }
            false
        },
    }
}

/// Clean a name: normalize one raw path component, byte by byte, into its
/// ASCII-safe form. Any byte sequence, valid UTF-8 or not, produces a result.
pub fn clean_name(name: &Vec<u8>) -> (r: Vec<u8>)
    ensures
        r@ == normalized(name@),
{
    let mut out: Vec<u8> = Vec::new();
    let mut content: bool = false;
    let mut pend: Vec<u8> = Vec::new();
    for i in 0..name.len()
        invariant
            run_builder(init_state(), name@.take(i as int)) == (BuilderState {
                out: out@,
                content: content,
                pending: pend@,
            }),
            pend@.len() == 0 || (pend@[0] >= 128 && pend@.len() < declared_len(pend@[0])),
    {
        let b = name[i];
        proof {
            assert(name@.take(i + 1 as int) =~= name@.take(i as int).push(b));
            lemma_run_builder_snoc(init_state(), name@.take(i as int), b);
        }
        let ghost prev = BuilderState { out: out@, content: content, pending: pend@ };
        if pend.len() == 0 && b < 128 {
            if b == 46 {
                out.push(46);
                content = false;
                proof {
                    assert(out@ =~= prev.out + seq![46u8]);
                }
            } else if b == 45 {
                if content {
                    out.push(45);
                }
                content = false;
                proof {
                    if prev.content {
                        assert(out@ =~= prev.out + seq![45u8]);
                    } else {
                        assert(out@ =~= prev.out + Seq::<u8>::empty());
                    }
                }
            } else if b <= 44 || b == 47 || (58 <= b && b <= 64) || (91 <= b && b <= 96) || b
                >= 123 {
                if content {
                    out.push(95);
                }
                content = false;
                proof {
                    if prev.content {
                        assert(out@ =~= prev.out + seq![95u8]);
                    } else {
                        assert(out@ =~= prev.out + Seq::<u8>::empty());
                    }
                }
            } else {
                out.push(b);
                content = true;
                proof {
                    assert(out@ =~= prev.out + seq![b]);
                }
            }
        } else {
            pend.push(b);
            let lead = pend[0];
            let need: usize = if lead >= 240 {
                4
            } else if lead >= 224 {
                3
            } else {
                2
            };
            if pend.len() >= need {
                let v: u32 = if need == 4 {
                    convert_four_to_u32(pend[0], pend[1], pend[2], pend[3])
                } else if need == 3 {
                    convert_three_to_u32(pend[0], pend[1], pend[2])
                } else {
                    convert_two_to_u32(pend[0], pend[1])
                };
                proof {
                    assert(v == buffered_codepoint(pend@));
                }
                match char_from_u32(v) {
                    Option::Some(c) => {
                        content = fold_push(c, &mut out, content);
                    },
                    Option::None => {
                        proof {
                            assert(out@ =~= prev.out + Seq::<u8>::empty());
                        }
                    },
                }
                pend.clear();
                proof {
                    assert(pend@ =~= Seq::<u8>::empty());
                }
            } else {
                proof {
                    assert(pend@ =~= prev.pending.push(b));
                }
            }
        }
    }
    proof {
        assert(name@.take(name@.len() as int) =~= name@);
    }
    out
}

/// A run of separator bytes collapses into at most one underscore: exactly
/// one when the builder last emitted content, none when it would stand first
/// or right after another collapsed run. Either way the run leaves the
/// content flag clear.
pub proof fn lemma_separator_run_collapses(s: BuilderState, run: Seq<u8>)
    requires
        s.pending.len() == 0,
        run.len() >= 1,
        forall|j: int| 0 <= j < run.len() ==> is_ascii_separator(#[trigger] run[j]),
    ensures
        run_builder(s, run).out == s.out + if s.content {
            seq![95u8]
        } else {
            Seq::<u8>::empty()
        },
        !run_builder(s, run).content,
        run_builder(s, run).pending.len() == 0,
    decreases run.len(),
{
    assert(run[0] < 128);
    let s1 = name_step(s, run[0]);
    assert(run_builder(s, run) == run_builder(s1, run.drop_first()));
    if run.len() == 1 {
        assert(run.drop_first() =~= Seq::<u8>::empty());
        assert(run_builder(s1, run.drop_first()) == s1);
    } else {
        assert(forall|j: int|
            0 <= j < run.drop_first().len() ==> is_ascii_separator(
                #[trigger] run.drop_first()[j],
            ));
        lemma_separator_run_collapses(s1, run.drop_first());
        assert(s1.out + Seq::<u8>::empty() =~= s1.out);
    }
}

/// A separator run immediately before a dot is absorbed into the dot: the
/// whole run followed by the dot emits at most the one collapsed underscore
/// and then the dot itself, never an underscore of the dot's own.
pub proof fn lemma_dot_absorbs_separators(s: BuilderState, run: Seq<u8>)
    requires
        s.pending.len() == 0,
        run.len() >= 1,
        forall|j: int| 0 <= j < run.len() ==> is_ascii_separator(#[trigger] run[j]),
    ensures
        run_builder(s, run.push(46u8)).out == s.out + (if s.content {
            seq![95u8]
        } else {
            Seq::<u8>::empty()
        }) + seq![46u8],
        !run_builder(s, run.push(46u8)).content,
{
    lemma_separator_run_collapses(s, run);
    lemma_run_builder_snoc(s, run, 46u8);
}

/// The builder consumes the UTF-8 encoding of a non-ASCII character as one
/// unit: run from a state between characters, the encoding applies exactly
/// the character's fold outcome.
pub proof fn lemma_encoded_char_runs(s: BuilderState, c: char)
    requires
        s.pending.len() == 0,
        c as u32 >= 128,
    ensures
        run_builder(s, vstd::utf8::encode_scalar(c as u32)) == scalar_step(s, Option::Some(c)),
{
    broadcast use vstd::utf8::char_u32_cast;

    vstd::utf8::char_is_scalar(c);
    let v = c as u32;
    let enc = vstd::utf8::encode_scalar(v);
    if vstd::utf8::has_width_2_encoding(v) {
        let b0 = vstd::utf8::leading_byte_width_2(v);
        let b1 = vstd::utf8::last_continuation_byte(v);
        assert(0xc0 <= b0 <= 0xdf && 0x80 <= b1 <= 0xbf && (((b0 & 0x1f) as u32) << 6) | ((b1
            & 0x3f) as u32) == v) by (bit_vector)
            requires
                b0 == (0xC0 | ((v >> 6) & 0x1F) as u8),
                b1 == (0x80 | (v & 0x3F) as u8),
                0x80 <= v <= 0x7FF,
        ;
        let s1 = name_step(s, b0);
        assert(s1.pending =~= seq![b0]);
        let p = s1.pending.push(b1);
        assert(buffered_codepoint(p) == v);
        assert(enc =~= seq![b0, b1]);
        assert(enc.drop_first() =~= seq![b1]);
        assert(seq![b1].drop_first() =~= Seq::<u8>::empty());
        assert(run_builder(s, enc) == run_builder(s1, seq![b1]));
        assert(run_builder(s1, seq![b1]) == run_builder(name_step(s1, b1), Seq::<u8>::empty()));
    } else if vstd::utf8::has_width_3_encoding(v) {
        let b0 = vstd::utf8::leading_byte_width_3(v);
        let b1 = vstd::utf8::second_last_continuation_byte(v);
        let b2 = vstd::utf8::last_continuation_byte(v);
        assert(0xe0 <= b0 <= 0xef && 0x80 <= b1 <= 0xbf && 0x80 <= b2 <= 0xbf && (((b0
            & 0x0f) as u32) << 12) | (((b1 & 0x3f) as u32) << 6) | ((b2 & 0x3f) as u32) == v)
            by (bit_vector)
            requires
                b0 == (0xE0 | ((v >> 12) & 0x0F) as u8),
                b1 == (0x80 | ((v >> 6) & 0x3F) as u8),
                b2 == (0x80 | (v & 0x3F) as u8),
                0x800 <= v <= 0xFFFF,
        ;
        let s1 = name_step(s, b0);
        assert(s1.pending =~= seq![b0]);
        let s2 = name_step(s1, b1);
        assert(s2.pending =~= seq![b0, b1]);
        let p = s2.pending.push(b2);
        assert(buffered_codepoint(p) == v);
        assert(enc =~= seq![b0, b1, b2]);
        assert(enc.drop_first() =~= seq![b1, b2]);
        assert(seq![b1, b2].drop_first() =~= seq![b2]);
        assert(seq![b2].drop_first() =~= Seq::<u8>::empty());
        assert(run_builder(s, enc) == run_builder(s1, seq![b1, b2]));
        assert(run_builder(s1, seq![b1, b2]) == run_builder(s2, seq![b2]));
        assert(run_builder(s2, seq![b2]) == run_builder(name_step(s2, b2), Seq::<u8>::empty()));
    } else {
        let b0 = vstd::utf8::leading_byte_width_4(v);
        let b1 = vstd::utf8::third_last_continuation_byte(v);
        let b2 = vstd::utf8::second_last_continuation_byte(v);
        let b3 = vstd::utf8::last_continuation_byte(v);
        assert(0xf0 <= b0 <= 0xf7 && 0x80 <= b1 <= 0xbf && 0x80 <= b2 <= 0xbf && 0x80 <= b3
            <= 0xbf && (((b0 & 0x07) as u32) << 18) | (((b1 & 0x3f) as u32) << 12) | (((b2
            & 0x3f) as u32) << 6) | ((b3 & 0x3f) as u32) == v) by (bit_vector)
            requires
                b0 == (0xF0 | ((v >> 18) & 0x7) as u8),
                b1 == (0x80 | ((v >> 12) & 0x3F) as u8),
                b2 == (0x80 | ((v >> 6) & 0x3F) as u8),
                b3 == (0x80 | (v & 0x3F) as u8),
                0x10000 <= v <= 0x10FFFF,
        ;
        let s1 = name_step(s, b0);
        assert(s1.pending =~= seq![b0]);
        let s2 = name_step(s1, b1);
        assert(s2.pending =~= seq![b0, b1]);
        let s3 = name_step(s2, b2);
        assert(s3.pending =~= seq![b0, b1, b2]);
        let p = s3.pending.push(b3);
        assert(buffered_codepoint(p) == v);
        assert(enc =~= seq![b0, b1, b2, b3]);
        assert(enc.drop_first() =~= seq![b1, b2, b3]);
        assert(seq![b1, b2, b3].drop_first() =~= seq![b2, b3]);
        assert(seq![b2, b3].drop_first() =~= seq![b3]);
        assert(seq![b3].drop_first() =~= Seq::<u8>::empty());
        assert(run_builder(s, enc) == run_builder(s1, seq![b1, b2, b3]));
        assert(run_builder(s1, seq![b1, b2, b3]) == run_builder(s2, seq![b2, b3]));
        assert(run_builder(s2, seq![b2, b3]) == run_builder(s3, seq![b3]));
        assert(run_builder(s3, seq![b3]) == run_builder(name_step(s3, b3), Seq::<u8>::empty()));
    }
}

/// A combining diacritical mark is deleted without inserting a separator on
/// either side: its encoding emits nothing, and it leaves the content flag
/// set so that a separator after it still collapses as if the mark were not
/// there.
pub proof fn lemma_combining_mark_deleted(s: BuilderState, c: char)
    requires
        s.pending.len() == 0,
        crate::fold::is_combining_mark(c),
    ensures
        run_builder(s, vstd::utf8::encode_scalar(c as u32)).out == s.out,
        run_builder(s, vstd::utf8::encode_scalar(c as u32)).content,
{
    lemma_encoded_char_runs(s, c);
    crate::fold::lemma_combining_marks_ignored(c);
    assert(s.out + Seq::<u8>::empty() =~= s.out);
}

/// An unmapped non-ASCII scalar folds by the same collapsing-underscore rule
/// as an ASCII separator byte: the builder leaves the same emission and the
/// same flag for either.
pub proof fn lemma_unmapped_collapses_like_separator(s: BuilderState, c: char, b: u8)
    requires
        s.pending.len() == 0,
        c as u32 >= 128,
        fold_outcome(c) == FoldOutcome::Collapse,
        is_ascii_separator(b),
    ensures
        run_builder(s, vstd::utf8::encode_scalar(c as u32)).out == ascii_step(s, b).out,
        run_builder(s, vstd::utf8::encode_scalar(c as u32)).content == ascii_step(s, b).content,
{
    lemma_encoded_char_runs(s, c);
}

/// One unit of a collapsing run: an ASCII byte of the separator classes, or
/// a non-ASCII scalar that the folding table leaves unmapped.
pub enum SeparatorUnit {
    /// An ASCII byte of the separator classes.
    Ascii(u8),
    /// An unmapped non-ASCII scalar, given as its character.
    Scalar(char),
}

/// True when the unit really is one of the two collapsing kinds.
pub open spec fn separator_unit_wf(u: SeparatorUnit) -> bool {
    match u {
        SeparatorUnit::Ascii(b) => is_ascii_separator(b),
        SeparatorUnit::Scalar(c) => c as u32 >= 128 && fold_outcome(c) == FoldOutcome::Collapse,
    }
}

/// The input bytes of one unit: the byte itself, or the scalar's UTF-8
/// encoding.
pub open spec fn separator_unit_bytes(u: SeparatorUnit) -> Seq<u8> {
    match u {
        SeparatorUnit::Ascii(b) => seq![b],
        SeparatorUnit::Scalar(c) => vstd::utf8::encode_scalar(c as u32),
    }
}

/// The input bytes of a whole run of units.
pub open spec fn separator_run_bytes(us: Seq<SeparatorUnit>) -> Seq<u8>
    decreases us.len(),
{
    if us.len() == 0 {
        Seq::empty()
    } else {
        separator_unit_bytes(us[0]) + separator_run_bytes(us.drop_first())
    }
}

/// Running the builder over a concatenation runs it over each part in turn.
pub proof fn lemma_run_builder_append(s: BuilderState, a: Seq<u8>, b: Seq<u8>)
    ensures
        run_builder(s, a + b) == run_builder(run_builder(s, a), b),
    decreases a.len(),
{
    if a.len() == 0 {
        assert(a + b =~= b);
    } else {
        assert((a + b)[0] == a[0]);
        assert((a + b).drop_first() =~= a.drop_first() + b);
        lemma_run_builder_append(name_step(s, a[0]), a.drop_first(), b);
    }
}

/// A run mixing ASCII separator bytes and unmapped non-ASCII scalars in any
/// order collapses as one: the whole run contributes exactly one underscore
/// when the builder last emitted content and nothing otherwise, and leaves
/// the content flag clear either way.
pub proof fn lemma_mixed_separator_run_collapses(s: BuilderState, us: Seq<SeparatorUnit>)
    requires
        s.pending.len() == 0,
        us.len() >= 1,
        forall|j: int| 0 <= j < us.len() ==> separator_unit_wf(#[trigger] us[j]),
    ensures
        run_builder(s, separator_run_bytes(us)).out == s.out + if s.content {
            seq![95u8]
        } else {
            Seq::<u8>::empty()
        },
        !run_builder(s, separator_run_bytes(us)).content,
        run_builder(s, separator_run_bytes(us)).pending.len() == 0,
    decreases us.len(),
{
    let u = us[0];
    let s1 = run_builder(s, separator_unit_bytes(u));
    match u {
        SeparatorUnit::Ascii(b) => {
            assert(seq![b].drop_first() =~= Seq::<u8>::empty());
            assert(seq![b][0] == b);
            assert(run_builder(s, seq![b]) == run_builder(name_step(s, b), seq![b].drop_first()));
            assert(run_builder(name_step(s, b), Seq::<u8>::empty()) == name_step(s, b));
            assert(s1 == name_step(s, b));
        },
        SeparatorUnit::Scalar(c) => {
            lemma_encoded_char_runs(s, c);
        },
    }
    assert(s1.out == s.out + if s.content {
        seq![95u8]
    } else {
        Seq::<u8>::empty()
    });
    assert(!s1.content && s1.pending.len() == 0);
    lemma_run_builder_append(s, separator_unit_bytes(u), separator_run_bytes(us.drop_first()));
    if us.len() == 1 {
        assert(us.drop_first().len() == 0);
        assert(run_builder(s1, separator_run_bytes(us.drop_first())) == s1);
    } else {
        assert(forall|j: int|
            0 <= j < us.drop_first().len() ==> separator_unit_wf(#[trigger] us.drop_first()[j]));
        lemma_mixed_separator_run_collapses(s1, us.drop_first());
        assert(s1.out + Seq::<u8>::empty() =~= s1.out);
    }
}

/// An alphanumeric ASCII byte.
pub open spec fn is_alnum_byte(b: u8) -> bool {
    (48 <= b && b <= 57) || (65 <= b && b <= 90) || (97 <= b && b <= 122)
}

/// The shape of every name the builder emits from ASCII input: nothing but
/// alphanumerics, hyphen, dot, and underscore, with every hyphen and
/// underscore directly preceded by an alphanumeric.
pub open spec fn wf_ascii_output(out: Seq<u8>) -> bool {
    forall|k: int|
        0 <= k < out.len() ==> (is_alnum_byte(#[trigger] out[k]) || out[k] == 45 || out[k] == 46
            || out[k] == 95) && ((out[k] == 45 || out[k] == 95) ==> k > 0 && is_alnum_byte(
            out[k - 1],
        ))
}

/// Appending a byte that respects the shape keeps the shape.
proof fn lemma_wf_append(out: Seq<u8>, b: u8)
    requires
        wf_ascii_output(out),
        is_alnum_byte(b) || b == 46 || ((b == 45 || b == 95) && out.len() > 0 && is_alnum_byte(
            out.last(),
        )),
    ensures
        wf_ascii_output(out.push(b)),
{
    assert(forall|k: int| 0 <= k < out.len() ==> out.push(b)[k] == out[k]);
    assert(out.push(b)[out.len() as int] == b);
}

/// From ASCII input the builder reaches only well-shaped outputs, never
/// leaves bytes buffered, and its content flag says exactly that the last
/// emitted byte is alphanumeric.
proof fn lemma_ascii_structure(x: Seq<u8>)
    requires
        forall|k: int| 0 <= k < x.len() ==> #[trigger] x[k] < 128,
    ensures
        ({
            let s = run_builder(init_state(), x);
            &&& wf_ascii_output(s.out)
            &&& s.pending.len() == 0
            &&& s.content <==> (s.out.len() > 0 && is_alnum_byte(s.out.last()))
        }),
    decreases x.len(),
{
    if x.len() > 0 {
        lemma_ascii_structure(x.drop_last());
        lemma_run_builder_snoc(init_state(), x.drop_last(), x.last());
        assert(x.drop_last().push(x.last()) =~= x);
        let s0 = run_builder(init_state(), x.drop_last());
        let b = x.last();
        assert(b == x[x.len() - 1] && b < 128);
        if b == 46 {
            lemma_wf_append(s0.out, 46);
            assert(run_builder(init_state(), x).out == s0.out.push(46u8)) by {
                assert(s0.out + seq![46u8] =~= s0.out.push(46u8));
            }
        } else if b == 45 || is_ascii_separator(b) {
            if s0.content {
                let e: u8 = if b == 45 {
                    45
                } else {
                    95
                };
                lemma_wf_append(s0.out, e);
                assert(run_builder(init_state(), x).out == s0.out.push(e)) by {
                    assert(s0.out + seq![e] =~= s0.out.push(e));
                }
            } else {
                assert(s0.out + Seq::<u8>::empty() =~= s0.out);
            }
        } else {
            assert(is_alnum_byte(b));
            lemma_wf_append(s0.out, b);
            assert(run_builder(init_state(), x).out == s0.out.push(b)) by {
                assert(s0.out + seq![b] =~= s0.out.push(b));
            }
        }
    }
}

/// Replaying a well-shaped name through the builder reproduces it byte for
/// byte.
proof fn lemma_wf_replay_prefix(y: Seq<u8>, i: int)
    requires
        wf_ascii_output(y),
        0 <= i <= y.len(),
    ensures
        run_builder(init_state(), y.take(i)) == (BuilderState {
            out: y.take(i),
            content: i > 0 && is_alnum_byte(y[i - 1]),
            pending: Seq::empty(),
        }),
    decreases i,
{
    if i == 0 {
        assert(y.take(0) =~= Seq::<u8>::empty());
    } else {
        lemma_wf_replay_prefix(y, i - 1);
        lemma_run_builder_snoc(init_state(), y.take(i - 1), y[i - 1]);
        assert(y.take(i - 1).push(y[i - 1]) =~= y.take(i));
        let b = y[i - 1];
        assert(is_alnum_byte(b) || b == 45 || b == 46 || b == 95);
        assert(b < 128);
        if b == 45 || b == 95 {
            assert(i - 1 > 0 && is_alnum_byte(y[i - 2]));
        }
        assert(y.take(i - 1) + seq![b] =~= y.take(i));
        if !(b == 45 || b == 46 || b == 95) {
            assert(!is_ascii_separator(b));
        }
    }
}

/// Idempotence: normalizing an already-normalized name is a no-op. Stated
/// for ASCII input, whose normal forms replay to themselves; a non-ASCII
/// scalar can fold to an output, such as the plain hyphen of an en-dash,
/// that a second pass would treat by its ASCII rule instead.
pub proof fn lemma_normalized_idempotent_ascii(x: Seq<u8>)
    requires
        forall|k: int| 0 <= k < x.len() ==> #[trigger] x[k] < 128,
    ensures
        normalized(normalized(x)) == normalized(x),
{
    lemma_ascii_structure(x);
    let y = normalized(x);
    lemma_wf_replay_prefix(y, y.len() as int);
    assert(y.take(y.len() as int) =~= y);
}

} // verus!
