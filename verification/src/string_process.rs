//! Tidying of formatted text: fixed fragments, such as typographic dashes
//! and quotes or the three-way Grand Company alternatives, are replaced by
//! shorter wiki-friendly text.

use vstd::prelude::*;
use vstd::string::StringSliceAdditionalSpecFns;
use vstd::utf8::*;

verus! {

/// The fragments that tidying replaces, in order of priority.
pub open spec fn pattern_texts() -> Seq<Seq<char>> {
    seq![
        "─"@,
        "–"@,
        "“"@,
        "”"@,
        "<Global(1)>"@,
        "[Limsa GC Title][Gridania GC Title][Ul'dah GC Title]"@,
        "<IfLimsaGC>[Limsa GC Rank]</IfLimsaGC><IfGridaniaGC>[Gridania GC Rank]</IfGridaniaGC><IfUldahGC>[Ul'dah GC Rank]</IfUldahGC>"@,
        "<IfLimsaGC>[Limsa GC Title]<Else><IfGridaniaGC>[Gridania GC Title]<Else>[Ul'dah GC Title]</IfGridaniaGC></IfLimsaGC>"@,
        "<IfLimsaGC>[Limsa GC Title] </IfLimsaGC><IfGridaniaGC>[Gridania GC Title] </IfGridaniaGC><IfUldahGC>[Ul'dah GC Title] </IfUldahGC>"@,
        "<IfLimsaGC>[Limsa GC Title] [Surname]</IfLimsaGC><IfGridaniaGC>[Gridania GC Title] [Surname]</IfGridaniaGC><IfUldahGC>[Ul'dah GC Title] [Surname]</IfUldahGC>"@,
        "<IfLimsaGC>[Forename][Limsa GC Title]</IfLimsaGC><IfGridaniaGC>[Forename][Gridania GC Title]</IfGridaniaGC><IfUldahGC>[Forename][Ul'dah GC Title]</IfUldahGC>"@,
        "<IfLimsaGC>[Surname][Limsa GC Title]</IfLimsaGC><IfGridaniaGC>[Surname][Gridania GC Title]</IfGridaniaGC><IfUldahGC>[Surname][Ul'dah GC Title]</IfUldahGC>"@,
        "<IfLimsaGC><Head([Limsa GC Title])></IfLimsaGC><IfGridaniaGC><Head([Gridania GC Title])></IfGridaniaGC><IfUldahGC><Head([Ul'dah GC Title])></IfUldahGC>"@,
        "<IfLimsaGC><Head([Limsa GC Title])> </IfLimsaGC><IfGridaniaGC><Head([Gridania GC Title])> </IfGridaniaGC><IfUldahGC><Head([Ul'dah GC Title])> </IfUldahGC>"@,
        "<IfLimsaGC><Head([Limsa GC Title])> [Surname]</IfLimsaGC><IfGridaniaGC><Head([Gridania GC Title])> [Surname]</IfGridaniaGC><IfUldahGC><Head([Ul'dah GC Title])> [Surname]</IfUldahGC>"@,
    ]
}

/// What each fragment of `pattern_texts` is replaced by, position for
/// position.
pub open spec fn replacement_texts() -> Seq<Seq<char>> {
    seq![
        "—"@,
        "-"@,
        "\""@,
        "\""@,
        "[Forename] [Surname]"@,
        "[GC Title]"@,
        "[GC Rank]"@,
        "[GC Title]"@,
        "[GC Title] "@,
        "[GC Title] [Surname]"@,
        "[Forename][GC Title]"@,
        "[Surname][GC Title]"@,
        "<Head([GC Title])>"@,
        "<Head([GC Title])> "@,
        "<Head([GC Title])> [Surname]"@,
    ]
}

/// The characters of each string, in order.
pub open spec fn texts_of(strs: Seq<&str>) -> Seq<Seq<char>> {
    strs.map_values(|p: &str| p@)
}

/// The matches that an Aho-Corasick matcher built from `patterns` with the
/// default configuration reports in `haystack` by its non-overlapping
/// search, in order: each is the byte offset where it starts, the byte
/// offset where it ends and the index of the pattern found; `None` where
/// no matcher can be built from `patterns`.
pub uninterp spec fn fragment_matches(patterns: Seq<Seq<char>>, haystack: Seq<char>) -> Option<
    Seq<(usize, usize, usize)>,
>;

/// A reported match lies within `bytes` and spans exactly the UTF-8
/// encoding of the pattern it names.
pub open spec fn match_spans_pattern(
    m: (usize, usize, usize),
    patterns: Seq<Seq<char>>,
    bytes: Seq<u8>,
) -> bool {
    &&& m.0 <= m.1 <= bytes.len()
    &&& m.2 < patterns.len()
    &&& bytes.subrange(m.0 as int, m.1 as int) == encode_utf8(patterns[m.2 as int])
}

/// Builds an Aho-Corasick matcher from `patterns` with the default
/// configuration (`AhoCorasickBuilder::new().build`) and lists what its
/// `find_iter` reports in `haystack`, each match as its start, its end and
/// its pattern's index. Claimed of the outside code: the list is
/// `fragment_matches` of the two arguments, `None` exactly when the build
/// fails; each match lies within the haystack's bytes and spans the bytes
/// of the pattern it names; and the matches do not overlap and come in the
/// order of the haystack (each search starts where the last match ended).
/// Which occurrences are reported is left to the name.
#[verifier::external_body]
fn find_fragments(patterns: &Vec<&str>, haystack: &str) -> (r: Option<Vec<(usize, usize, usize)>>)
    ensures
        match r {
            Some(v) => {
                &&& fragment_matches(texts_of(patterns@), haystack@) == Some(v@)
                &&& forall|i: int|
                    0 <= i < v@.len() ==> match_spans_pattern(
                        #[trigger] v@[i],
                        texts_of(patterns@),
                        haystack.spec_bytes(),
                    )
                &&& forall|i: int, j: int|
                    0 <= i < j < v@.len() ==> (#[trigger] v@[i]).1 <= (#[trigger] v@[j]).0
            },
            None => fragment_matches(texts_of(patterns@), haystack@) is None,
        },
{
    match aho_corasick::AhoCorasickBuilder::new().build(patterns) {
        Ok(matcher) => Some(
            matcher.find_iter(haystack).map(|m| (m.start(), m.end(), m.pattern().as_usize())).collect(),
        ),
        Err(_) => None,
    }
}

/// The text that tidying makes of `bytes` (valid UTF-8) given the matches
/// reported in it, where the bytes before `last` are already dealt with:
/// each match that starts at or after `last` is replaced by its pattern's
/// replacement and the text between is kept; a match that starts before
/// `last` overlaps one already replaced and is passed over.
pub open spec fn cleaned(bytes: Seq<u8>, ms: Seq<(usize, usize, usize)>, last: int) -> Seq<char>
    decreases ms.len(),
{
    if ms.len() == 0 {
        decode_utf8(bytes.subrange(last, bytes.len() as int))
    } else if (ms[0].0 as int) < last {
        cleaned(bytes, ms.drop_first(), last)
    } else {
        decode_utf8(bytes.subrange(last, ms[0].0 as int)) + replacement_texts()[ms[0].2 as int]
            + cleaned(bytes, ms.drop_first(), ms[0].1 as int)
    }
}

/// What `clean_str` makes of `input`.
pub open spec fn clean_text(input: Seq<char>) -> Seq<char> {
    match fragment_matches(pattern_texts(), input) {
        Some(ms) => cleaned(encode_utf8(input), ms, 0),
        None => input,
    }
}

/// The fragments to replace.
fn fragment_patterns() -> (r: Vec<&'static str>)
    ensures
        texts_of(r@) == pattern_texts(),
{
    let r = vec![
        "─",
        "–",
        "“",
        "”",
        "<Global(1)>",
        "[Limsa GC Title][Gridania GC Title][Ul'dah GC Title]",
        "<IfLimsaGC>[Limsa GC Rank]</IfLimsaGC><IfGridaniaGC>[Gridania GC Rank]</IfGridaniaGC><IfUldahGC>[Ul'dah GC Rank]</IfUldahGC>",
        "<IfLimsaGC>[Limsa GC Title]<Else><IfGridaniaGC>[Gridania GC Title]<Else>[Ul'dah GC Title]</IfGridaniaGC></IfLimsaGC>",
        "<IfLimsaGC>[Limsa GC Title] </IfLimsaGC><IfGridaniaGC>[Gridania GC Title] </IfGridaniaGC><IfUldahGC>[Ul'dah GC Title] </IfUldahGC>",
        "<IfLimsaGC>[Limsa GC Title] [Surname]</IfLimsaGC><IfGridaniaGC>[Gridania GC Title] [Surname]</IfGridaniaGC><IfUldahGC>[Ul'dah GC Title] [Surname]</IfUldahGC>",
        "<IfLimsaGC>[Forename][Limsa GC Title]</IfLimsaGC><IfGridaniaGC>[Forename][Gridania GC Title]</IfGridaniaGC><IfUldahGC>[Forename][Ul'dah GC Title]</IfUldahGC>",
        "<IfLimsaGC>[Surname][Limsa GC Title]</IfLimsaGC><IfGridaniaGC>[Surname][Gridania GC Title]</IfGridaniaGC><IfUldahGC>[Surname][Ul'dah GC Title]</IfUldahGC>",
        "<IfLimsaGC><Head([Limsa GC Title])></IfLimsaGC><IfGridaniaGC><Head([Gridania GC Title])></IfGridaniaGC><IfUldahGC><Head([Ul'dah GC Title])></IfUldahGC>",
        "<IfLimsaGC><Head([Limsa GC Title])> </IfLimsaGC><IfGridaniaGC><Head([Gridania GC Title])> </IfGridaniaGC><IfUldahGC><Head([Ul'dah GC Title])> </IfUldahGC>",
        "<IfLimsaGC><Head([Limsa GC Title])> [Surname]</IfLimsaGC><IfGridaniaGC><Head([Gridania GC Title])> [Surname]</IfGridaniaGC><IfUldahGC><Head([Ul'dah GC Title])> [Surname]</IfUldahGC>",
    ];
    assert(texts_of(r@) =~= pattern_texts());
    r
}

/// The replacements, position for position with `fragment_patterns`.
fn fragment_replacements() -> (r: Vec<&'static str>)
    ensures
        texts_of(r@) == replacement_texts(),
{
    let r = vec![
        "—",
        "-",
        "\"",
        "\"",
        "[Forename] [Surname]",
        "[GC Title]",
        "[GC Rank]",
        "[GC Title]",
        "[GC Title] ",
        "[GC Title] [Surname]",
        "[Forename][GC Title]",
        "[Surname][GC Title]",
        "<Head([GC Title])>",
        "<Head([GC Title])> ",
        "<Head([GC Title])> [Surname]",
    ];
    assert(texts_of(r@) =~= replacement_texts());
    r
}


/// No fragment is empty, and each has a replacement.
proof fn lemma_patterns_nonempty()
    ensures
        pattern_texts().len() == replacement_texts().len(),
        forall|i: int| 0 <= i < pattern_texts().len() ==> #[trigger] pattern_texts()[i].len() > 0,
{
    reveal_strlit("─");
    reveal_strlit("–");
    reveal_strlit("“");
    reveal_strlit("”");
    reveal_strlit("<Global(1)>");
    reveal_strlit("[Limsa GC Title][Gridania GC Title][Ul'dah GC Title]");
    reveal_strlit("<IfLimsaGC>[Limsa GC Rank]</IfLimsaGC><IfGridaniaGC>[Gridania GC Rank]</IfGridaniaGC><IfUldahGC>[Ul'dah GC Rank]</IfUldahGC>");
    reveal_strlit("<IfLimsaGC>[Limsa GC Title]<Else><IfGridaniaGC>[Gridania GC Title]<Else>[Ul'dah GC Title]</IfGridaniaGC></IfLimsaGC>");
    reveal_strlit("<IfLimsaGC>[Limsa GC Title] </IfLimsaGC><IfGridaniaGC>[Gridania GC Title] </IfGridaniaGC><IfUldahGC>[Ul'dah GC Title] </IfUldahGC>");
    reveal_strlit("<IfLimsaGC>[Limsa GC Title] [Surname]</IfLimsaGC><IfGridaniaGC>[Gridania GC Title] [Surname]</IfGridaniaGC><IfUldahGC>[Ul'dah GC Title] [Surname]</IfUldahGC>");
    reveal_strlit("<IfLimsaGC>[Forename][Limsa GC Title]</IfLimsaGC><IfGridaniaGC>[Forename][Gridania GC Title]</IfGridaniaGC><IfUldahGC>[Forename][Ul'dah GC Title]</IfUldahGC>");
    reveal_strlit("<IfLimsaGC>[Surname][Limsa GC Title]</IfLimsaGC><IfGridaniaGC>[Surname][Gridania GC Title]</IfGridaniaGC><IfUldahGC>[Surname][Ul'dah GC Title]</IfUldahGC>");
    reveal_strlit("<IfLimsaGC><Head([Limsa GC Title])></IfLimsaGC><IfGridaniaGC><Head([Gridania GC Title])></IfGridaniaGC><IfUldahGC><Head([Ul'dah GC Title])></IfUldahGC>");
    reveal_strlit("<IfLimsaGC><Head([Limsa GC Title])> </IfLimsaGC><IfGridaniaGC><Head([Gridania GC Title])> </IfGridaniaGC><IfUldahGC><Head([Ul'dah GC Title])> </IfUldahGC>");
    reveal_strlit("<IfLimsaGC><Head([Limsa GC Title])> [Surname]</IfLimsaGC><IfGridaniaGC><Head([Gridania GC Title])> [Surname]</IfGridaniaGC><IfUldahGC><Head([Ul'dah GC Title])> [Surname]</IfUldahGC>");
}

/// The encoding of a non-empty text is non-empty and starts with a byte
/// that begins a character.
proof fn lemma_encoding_starts_a_char(chars: Seq<char>)
    requires
        chars.len() > 0,
    ensures
        encode_utf8(chars).len() > 0,
        !is_continuation_byte(encode_utf8(chars)[0]),
{
    encode_utf8_first_scalar(chars);
}

/// In valid UTF-8, a prefix that is itself valid UTF-8 ends at a character
/// boundary.
proof fn lemma_valid_prefix_ends_at_boundary(t: Seq<u8>, m: int)
    requires
        valid_utf8(t),
        0 <= m <= t.len(),
        valid_utf8(t.subrange(0, m)),
    ensures
        is_char_boundary(t, m),
    decreases m,
{
    if m > 0 {
        let p = t.subrange(0, m);
        let width = length_of_first_scalar(t);
        assert(p[0] == t[0]);
        assert(valid_first_scalar(p));
        assert(length_of_first_scalar(p) == width);
        let tail = pop_first_scalar(t);
        assert(valid_utf8(tail));
        assert(pop_first_scalar(p) =~= tail.subrange(0, m - width));
        lemma_valid_prefix_ends_at_boundary(tail, m - width);
    }
}

/// Replaces each fragment of `pattern_texts` found in `input` by its
/// replacement; text with no fragment comes back as it is.
pub fn clean_str(input: &str) -> (r: String)
    ensures
        r@ == clean_text(input@),
{
    broadcast use encode_utf8_valid_utf8;

    let patterns = fragment_patterns();
    match find_fragments(&patterns, input) {
        Some(ms) => apply_fragments(input, &ms),
        None => String::from_str(input),
    }
}

/// Replaces the fragments reported at `ms` in `input`, in order: each match
/// that starts at or after the end of the last one replaced is replaced by
/// its pattern's replacement, and the text between is kept.
pub fn apply_fragments(input: &str, ms: &Vec<(usize, usize, usize)>) -> (r: String)
    requires
        forall|j: int|
            0 <= j < ms@.len() ==> match_spans_pattern(#[trigger] ms@[j], pattern_texts(), input.spec_bytes()),
    ensures
        r@ == cleaned(input.spec_bytes(), ms@, 0),
{
    broadcast use encode_utf8_valid_utf8, encode_utf8_decode_utf8;

    let replacements = fragment_replacements();
    let ghost bytes = input.spec_bytes();
    proof {
        lemma_patterns_nonempty();
        assert(bytes.subrange(0, bytes.len() as int) =~= bytes);
        assert(ms@.skip(0) =~= ms@);
        assert(Seq::<char>::empty() + cleaned(bytes, ms@, 0) =~= cleaned(bytes, ms@, 0));
    }
    let mut output = String::new();
    let mut rest: &str = input;
    let mut last_end: usize = 0;
    let mut i: usize = 0;
    while i < ms.len()
        invariant
            bytes == input.spec_bytes(),
            forall|j: int|
                0 <= j < ms@.len() ==> match_spans_pattern(#[trigger] ms@[j], pattern_texts(), bytes),
            pattern_texts().len() == replacement_texts().len(),
            forall|j: int| 0 <= j < pattern_texts().len() ==> #[trigger] pattern_texts()[j].len() > 0,
            texts_of(replacements@) == replacement_texts(),
            0 <= i <= ms@.len(),
            last_end <= bytes.len(),
            rest.spec_bytes() == bytes.subrange(last_end as int, bytes.len() as int),
            output@ + cleaned(bytes, ms@.skip(i as int), last_end as int) == cleaned(bytes, ms@, 0),
        decreases ms@.len() - i,
    {
        let (start, end, pattern) = ms[i];
        let ghost tail = ms@.skip(i as int);
        proof {
            assert(tail[0] == ms@[i as int]);
            assert(tail.drop_first() =~= ms@.skip(i + 1));
            assert(match_spans_pattern(ms@[i as int], pattern_texts(), bytes));
        }
        if start >= last_end {
            let ghost pat = pattern_texts()[pattern as int];
            let ghost rb = rest.spec_bytes();
            let k = start - last_end;
            proof {
                lemma_encoding_starts_a_char(pat);
                assert(bytes.subrange(start as int, end as int)[0] == bytes[start as int]);
                assert(rb[k as int] == bytes[start as int]);
                encode_utf8_valid_utf8(rest@);
                is_char_boundary_iff_not_is_continuation_byte(rb, k as int);
            }
            let (before, after) = rest.split_at(k);
            let ghost ab = after.spec_bytes();
            let m = end - start;
            proof {
                assert(before.spec_bytes() =~= bytes.subrange(last_end as int, start as int));
                assert(ab =~= bytes.subrange(start as int, bytes.len() as int));
                assert(ab.subrange(0, m as int) =~= bytes.subrange(start as int, end as int));
                encode_utf8_valid_utf8(after@);
                encode_utf8_valid_utf8(pat);
                encode_utf8_decode_utf8(before@);
                lemma_valid_prefix_ends_at_boundary(ab, m as int);
            }
            let (_, remainder) = after.split_at(m);
            let ghost old_output = output@;
            output.append(before);
            let replacement = replacements[pattern];
            proof {
                assert(replacement@ == texts_of(replacements@)[pattern as int]);
            }
            output.append(replacement);
            rest = remainder;
            last_end = end;
            proof {
                assert(rest.spec_bytes() =~= bytes.subrange(end as int, bytes.len() as int));
                assert(before@ == decode_utf8(bytes.subrange(start as int - k as int, start as int)));
                assert(output@ + cleaned(bytes, ms@.skip(i + 1), end as int) =~= old_output
                    + cleaned(bytes, tail, start as int - k as int));
            }
        }
        i = i + 1;
    }
    proof {
        assert(ms@.skip(i as int) =~= Seq::<(usize, usize, usize)>::empty());
    }
    output.append(rest);
    output
}

} // verus!
