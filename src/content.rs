use vstd::prelude::*;
use vstd::string::*;
use fake::Fake;
use rand::Rng;
use crate::plan::{MAX_FILE_TARGET, MIN_FILE_TARGET};

verus! {

broadcast use vstd::string::group_string_axioms;

/// Paragraphs joined by newlines.
pub open spec fn joined_lines(ps: Seq<Seq<char>>) -> Seq<char>
    decreases ps.len(),
{
    if ps.len() == 0 {
        Seq::empty()
    } else if ps.len() == 1 {
        ps[0]
    } else {
        joined_lines(ps.drop_last()) + seq!['\n'] + ps.last()
    }
}

/// The texts of a list of strings.
pub open spec fn texts(ps: Seq<String>) -> Seq<Seq<char>> {
    ps.map_values(|p: String| p@)
}

/// The length that a generated paragraph can have: at least one character,
/// and at most four sentences of nine fourteen-letter words with their
/// spaces, periods and three line breaks.
pub open spec fn paragraph_len_ok(n: nat) -> bool {
    0 < n <= 543
}

/// How many paragraphs a file of `target_size` bytes gets when one sample
/// paragraph is `sample_len` bytes long. An empty sample gives none.
pub open spec fn paragraph_count_of(target_size: nat, sample_len: nat) -> nat {
    if sample_len == 0 {
        0
    } else {
        target_size / sample_len
    }
}

/// The number of paragraphs that approximates `target_size` bytes, given the
/// byte length of one sample paragraph.
pub fn paragraph_count(target_size: usize, sample_len: usize) -> (r: usize)
    ensures
        r as nat == paragraph_count_of(target_size as nat, sample_len as nat),
{
    if sample_len == 0 {
        0
    } else {
        target_size / sample_len
    }
}

/// Joins paragraphs with newline separators.
pub fn join_paragraphs(ps: &Vec<String>) -> (r: String)
    ensures
        r@ == joined_lines(texts(ps@)),
{
    let mut r = String::new();
    let mut i: usize = 0;
    while i < ps.len()
        invariant
            i <= ps@.len(),
            r@ == joined_lines(texts(ps@.subrange(0, i as int))),
        decreases ps@.len() - i,
    {
        let ghost prev = texts(ps@.subrange(0, i as int));
        let ghost next = texts(ps@.subrange(0, i + 1));
        assert(next.drop_last() =~= prev);
        assert(next.last() == ps@[i as int]@);
        if i > 0 {
            proof {
                reveal_strlit("\n");
            }
            assert("\n"@ =~= seq!['\n']);
            r.append("\n");
        } else {
            assert(prev.len() == 0);
        }
        r.append(ps[i].as_str());
        assert(r@ =~= joined_lines(next));
        i = i + 1;
    }
    assert(ps@.subrange(0, ps@.len() as int) =~= ps@);
    r
}

/// Relies on fake's `Paragraph` faker with three or four sentences: random
/// placeholder text made of ASCII lorem words (one to fourteen letters),
/// four to nine words a sentence, each sentence closed by a period and the
/// sentences separated by line breaks.
#[verifier::external_body]
fn fake_paragraph() -> (r: String)
    ensures
        string_is_ascii(&r),
        paragraph_len_ok(r@.len()),
{
    fake::faker::lorem::en::Paragraph(3..5).fake::<String>()
}

/// Relies on rand's `gen_range` on the thread-local generator: for a
/// non-empty inclusive range, a value within it.
#[verifier::external_body]
fn random_in(low: usize, high: usize) -> (r: usize)
    requires
        low <= high,
    ensures
        low <= r <= high,
{
    rand::thread_rng().gen_range(low..=high)
}

/// A random target size for one file, within the file-size band.
pub fn generate_file_size() -> (r: usize)
    ensures
        MIN_FILE_TARGET <= r <= MAX_FILE_TARGET,
{
    random_in(MIN_FILE_TARGET, MAX_FILE_TARGET)
}

/// `count` freshly generated paragraphs.
pub fn generate_paragraphs(count: usize) -> (r: Vec<String>)
    ensures
        r@.len() == count,
        forall|i: int| 0 <= i < r@.len() ==> paragraph_len_ok(#[trigger] r@[i]@.len()),
{
    let mut r: Vec<String> = Vec::new();
    let mut i: usize = 0;
    while i < count
        invariant
            i <= count,
            r@.len() == i,
            forall|j: int| 0 <= j < r@.len() ==> paragraph_len_ok(#[trigger] r@[j]@.len()),
        decreases count - i,
    {
        r.push(fake_paragraph());
        i = i + 1;
    }
    r
}

/// Generated text for a file of about `target_size` bytes: one sample
/// paragraph's byte length fixes the paragraph count, and that many fresh
/// paragraphs are joined by newlines. A target of at least one longest
/// paragraph always gives some text.
pub fn generate_content(target_size: usize) -> (r: String)
    ensures
        exists|ps: Seq<Seq<char>>, sample_len: nat|
            {
                &&& paragraph_len_ok(sample_len)
                &&& ps.len() == paragraph_count_of(target_size as nat, sample_len)
                &&& forall|i: int| 0 <= i < ps.len() ==> paragraph_len_ok(#[trigger] ps[i].len())
                &&& r@ == joined_lines(ps)
            },
        target_size >= 543 ==> r@.len() > 0,
{
    let sample = fake_paragraph();
    let sample_str = sample.as_str();
    let sample_len = sample_str.len();
    proof {
        assert(is_ascii(sample_str));
        assert(sample_str.spec_bytes().len() == sample@.len());
    }
    let count = paragraph_count(target_size, sample_len);
    let paragraphs = generate_paragraphs(count);
    let r = join_paragraphs(&paragraphs);
    let ghost ps = texts(paragraphs@);
    assert(ps.len() == paragraph_count_of(target_size as nat, sample_len as nat));
    assert forall|i: int| 0 <= i < ps.len() implies paragraph_len_ok(#[trigger] ps[i].len()) by {
        assert(ps[i] == paragraphs@[i]@);
    }
    if target_size >= 543 {
        assert(target_size as nat / sample_len as nat >= 1) by (nonlinear_arith)
            requires
                target_size >= 543,
                0 < sample_len <= 543,
        ;
        assert(paragraph_len_ok(ps.last().len()));
        assert(joined_lines(ps).len() >= ps.last().len());
    }
    r
}

} // verus!
