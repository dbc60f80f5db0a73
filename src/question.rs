use rand::seq::SliceRandom;
use vstd::prelude::*;
use vstd::seq_lib::lemma_multiset_commutative;

use crate::utils::{response_handler, ApiError, Envelope, STATUS_NOT_FOUND, STATUS_OK};

verus! {

/// Where a question sits, and which hint and answer belong to it.
#[derive(Debug, Clone)]
pub struct Meta {
    pub id: u32,
    pub level_id: u32,
    pub category_id: u32,
    pub hint_id: u32,
    pub answer_id: u32,
    pub name: String,
    pub title: String,
}

/// A question, with its ordered sub-questions.
#[derive(Debug, Clone)]
pub struct Question {
    pub id: String,
    pub level_id: Option<u32>,
    pub level_name: Option<String>,
    pub category_id: Option<u32>,
    pub category_name: Option<String>,
    pub chapter: Option<String>,
    pub sentence: Option<String>,
    pub prerequisites: Option<String>,
    pub sub_questions: Vec<SubQuestion>,
}

/// One part of a question; each entry of `select_answer` maps option keys
/// to option texts.
#[derive(Debug, Clone)]
pub struct SubQuestion {
    pub id: u32,
    pub hint_id: u32,
    pub answer_id: u32,
    pub sentence: Option<String>,
    pub prerequisites: Option<String>,
    pub select_answer: Vec<std::collections::HashMap<String, String>>,
    pub answer: String,
}

/// A category id as stored: some documents hold it as text, others as a number.
#[derive(Debug, Clone)]
pub enum CategoryId {
    Text(String),
    Number(u32),
}

/// A question document as stored, before its category id is normalized.
#[derive(Debug, Clone)]
pub struct QuestionFields {
    pub id: Option<String>,
    pub level_id: u32,
    pub level_name: String,
    pub category_id: Option<CategoryId>,
    pub category_name: String,
    pub chapter: String,
    pub sentence: String,
    pub prerequisites: Option<String>,
    pub sub_questions: Vec<SubQuestion>,
}

/// The path of the question endpoint.
#[derive(Debug, Clone, Copy)]
pub struct PathParams {
    pub level_id: u32,
    pub category_id: u32,
}

/// The query of the question endpoint.
#[derive(Debug, Clone, Copy)]
pub struct QueryParams {
    pub limit: Option<u32>,
}

pub open spec fn is_digit(c: char) -> bool {
    '0' <= c && c <= '9'
}

/// The number that a string of decimal digits denotes.
pub open spec fn digits_value(s: Seq<char>) -> nat
    decreases s.len(),
{
    if s.len() == 0 {
        0
    } else {
        digits_value(s.drop_last()) * 10 + ((s.last() as u32) - ('0' as u32)) as nat
    }
}

/// The digits of `s`, past one optional leading `+`.
pub open spec fn unsigned_digits(s: Seq<char>) -> Seq<char> {
    if s.len() > 0 && s[0] == '+' {
        s.drop_first()
    } else {
        s
    }
}

/// The `u32` that `s` spells in decimal, if any: an optional `+`, then one
/// or more digits, denoting a value that fits.
pub open spec fn decimal_u32(s: Seq<char>) -> Option<u32> {
    let d = unsigned_digits(s);
    if d.len() > 0 && (forall|i: int| 0 <= i < d.len() ==> is_digit(#[trigger] d[i]))
        && digits_value(d) <= u32::MAX {
        Some(digits_value(d) as u32)
    } else {
        None
    }
}

proof fn lemma_digits_value_prefix(t: Seq<char>, k: int)
    requires
        0 <= k <= t.len(),
        forall|i: int| 0 <= i < t.len() ==> is_digit(#[trigger] t[i]),
    ensures
        digits_value(t) >= digits_value(t.subrange(0, k)),
    decreases t.len(),
{
    if k < t.len() {
        let u = t.drop_last();
        assert(u.subrange(0, k) =~= t.subrange(0, k));
        lemma_digits_value_prefix(u, k);
    } else {
        assert(t.subrange(0, k) =~= t);
    }
}

/// Reads a `u32` written in decimal, as `str::parse::<u32>` does: an
/// optional `+`, then one or more digits whose value fits.
pub fn parse_u32(s: &str) -> (r: Option<u32>)
    ensures
        r == decimal_u32(s@),
{
    let n = s.unicode_len();
    let mut start: usize = 0;
    if n > 0 && s.get_char(0) == '+' {
        start = 1;
    }
    let ghost d = unsigned_digits(s@);
    assert(d =~= s@.subrange(start as int, n as int));
    if start == n {
        return None;
    }
    let mut acc: u32 = 0;
    let mut i: usize = start;
    while i < n
        invariant
            start <= i <= n,
            n == s@.len(),
            d == s@.subrange(start as int, n as int),
            d == unsigned_digits(s@),
            forall|j: int| 0 <= j < i - start ==> is_digit(#[trigger] d[j]),
            acc as nat == digits_value(d.subrange(0, i - start)),
        decreases n - i,
    {
        let c = s.get_char(i);
        assert(d[i - start] == c);
        if !('0' <= c && c <= '9') {
            assert(!is_digit(d[i - start]));
            assert(!(forall|j: int| 0 <= j < d.len() ==> is_digit(#[trigger] d[j])));
            return None;
        }
        let v: u32 = (c as u32) - ('0' as u32);
        let next: u64 = (acc as u64) * 10 + (v as u64);
        proof {
            let p = d.subrange(0, i - start + 1);
            assert(p.drop_last() =~= d.subrange(0, i - start));
            assert(next as nat == digits_value(p));
        }
        if next > 4294967295u64 {
            proof {
                if forall|j: int| 0 <= j < d.len() ==> is_digit(#[trigger] d[j]) {
                    lemma_digits_value_prefix(d, i - start + 1);
                    assert(digits_value(d) > u32::MAX);
                }
                assert(decimal_u32(s@) is None);
            }
            return None;
        }
        acc = next as u32;
        i = i + 1;
    }
    assert(d.subrange(0, i - start) =~= d);
    Some(acc)
}

fn digit_text(d: u32) -> (r: &'static str)
    requires
        d < 10,
    ensures
        r@ == seq![digit_char(d as nat)],
{
    proof {
        reveal_strlit("0");
        reveal_strlit("1");
        reveal_strlit("2");
        reveal_strlit("3");
        reveal_strlit("4");
        reveal_strlit("5");
        reveal_strlit("6");
        reveal_strlit("7");
        reveal_strlit("8");
        reveal_strlit("9");
    }
    let r = if d == 0 {
        "0"
    } else if d == 1 {
        "1"
    } else if d == 2 {
        "2"
    } else if d == 3 {
        "3"
    } else if d == 4 {
        "4"
    } else if d == 5 {
        "5"
    } else if d == 6 {
        "6"
    } else if d == 7 {
        "7"
    } else if d == 8 {
        "8"
    } else {
        "9"
    };
    assert(r@ =~= seq![digit_char(d as nat)]);
    r
}

pub open spec fn digit_char(d: nat) -> char {
    seq!['0', '1', '2', '3', '4', '5', '6', '7', '8', '9'][d as int]
}

/// The decimal spelling of `n`, without leading zeros.
pub open spec fn decimal_text(n: nat) -> Seq<char>
    decreases n,
{
    if n < 10 {
        seq![digit_char(n)]
    } else {
        decimal_text(n / 10).push(digit_char(n % 10))
    }
}

/// Appends the decimal spelling of `n` to `s`.
fn push_decimal(s: &mut String, n: u32)
    ensures
        final(s)@ == old(s)@ + decimal_text(n as nat),
    decreases n,
{
    if n >= 10 {
        push_decimal(s, n / 10);
    }
    let d: u32 = n % 10;
    s.append(digit_text(d));
    assert(s@ =~= old(s)@ + decimal_text(n as nat));
}

/// The category id that a stored value denotes: a number as it is, a text
/// when it spells a `u32` in decimal; anything else is a bad request.
pub open spec fn category_id_value(c: Option<CategoryId>) -> Option<u32> {
    match c {
        Some(CategoryId::Number(n)) => Some(n),
        Some(CategoryId::Text(t)) => decimal_u32(t@),
        None => None,
    }
}

/// Resolves a stored category id to its number.
pub fn normalize_category_id(c: Option<CategoryId>) -> (r: Result<u32, ApiError>)
    ensures
        category_id_value(c) is Some ==> r == Ok::<u32, ApiError>(category_id_value(c)->Some_0),
        category_id_value(c) is None ==> r == Err::<u32, ApiError>(ApiError::BadRequest),
{
    match c {
        Some(CategoryId::Number(n)) => Ok(n),
        Some(CategoryId::Text(t)) => match parse_u32(t.as_str()) {
            Some(n) => Ok(n),
            None => Err(ApiError::BadRequest),
        },
        None => Err(ApiError::BadRequest),
    }
}

impl Question {
    /// Builds a question from a stored document, normalizing its category
    /// id; an id that denotes no `u32` is a bad request.
    pub fn from_fields(f: QuestionFields) -> (r: Result<Question, ApiError>)
        ensures
            category_id_value(f.category_id) is None ==> r == Err::<Question, ApiError>(
                ApiError::BadRequest,
            ),
            category_id_value(f.category_id) is Some ==> r is Ok && {
                let q = r->Ok_0;
                &&& q.id@ == (match f.id {
                    Some(i) => i@,
                    None => Seq::<char>::empty(),
                })
                &&& q.level_id == Some(f.level_id)
                &&& q.level_name == Some(f.level_name)
                &&& q.category_id == category_id_value(f.category_id)
                &&& q.category_name == Some(f.category_name)
                &&& q.chapter == Some(f.chapter)
                &&& q.sentence == Some(f.sentence)
                &&& q.prerequisites == f.prerequisites
                &&& q.sub_questions == f.sub_questions
            },
    {
        let category_id = match normalize_category_id(f.category_id) {
            Ok(n) => n,
            Err(e) => {
                return Err(e);
            },
        };
        let id = match f.id {
            Some(i) => i,
            None => String::new(),
        };
        Ok(
            Question {
                id,
                level_id: Some(f.level_id),
                level_name: Some(f.level_name),
                category_id: Some(category_id),
                category_name: Some(f.category_name),
                chapter: Some(f.chapter),
                sentence: Some(f.sentence),
                prerequisites: f.prerequisites,
                sub_questions: f.sub_questions,
            },
        )
    }
}

/// Relies on rand's `SliceRandom::shuffle` driven by `rand::rng()`: the
/// items are permuted in place, none added and none lost.
#[verifier::external_body]
fn shuffle_questions(v: &mut Vec<Question>)
    ensures
        final(v)@.to_multiset() == old(v)@.to_multiset(),
{
    v.shuffle(&mut rand::rng())
}

/// The first `limit` questions of `questions` (all of them when fewer).
pub fn take_first(questions: Vec<Question>, limit: u32) -> (r: Vec<Question>)
    ensures
        questions@.len() <= limit ==> r@ == questions@,
        questions@.len() > limit ==> r@ == questions@.subrange(0, limit as int),
{
    let mut v = questions;
    v.truncate(limit as usize);
    v
}

/// Whether `r` is a sample of `limit` items drawn without replacement from `from`.
pub open spec fn is_sample_of(r: Seq<Question>, from: Seq<Question>, limit: u32) -> bool {
    &&& r.len() == limit
    &&& r.to_multiset().subset_of(from.to_multiset())
}

/// Applies the optional limit: with no limit, or when the questions do not
/// exceed it, they come back as they are; else a uniformly shuffled sample
/// of exactly `limit` of them.
pub fn select_questions(questions: Vec<Question>, limit: Option<u32>) -> (r: Vec<Question>)
    ensures
        limit is None ==> r@ == questions@,
        limit is Some && questions@.len() <= limit->Some_0 ==> r@ == questions@,
        limit is Some && questions@.len() > limit->Some_0 ==> is_sample_of(
            r@,
            questions@,
            limit->Some_0,
        ),
{
    match limit {
        None => questions,
        Some(l) => {
            if questions.len() <= l as usize {
                questions
            } else {
                let ghost orig = questions@;
                let mut v = questions;
                shuffle_questions(&mut v);
                let ghost shuffled = v@;
                proof {
                    broadcast use vstd::seq_lib::group_to_multiset_ensures;

                    assert(shuffled.to_multiset().len() == orig.to_multiset().len());
                    assert(shuffled.len() == orig.len());
                }
                let r = take_first(v, l);
                proof {
                    let rest = shuffled.subrange(l as int, shuffled.len() as int);
                    assert(shuffled =~= r@ + rest);
                    lemma_multiset_commutative(r@, rest);
                    assert(r@.to_multiset().subset_of(orig.to_multiset()));
                }
                r
            }
        },
    }
}

/// The text that reports an empty result for a level and category.
pub open spec fn no_questions_text(level_id: u32, category_id: u32) -> Seq<char> {
    "database has not questions, level_id: "@ + decimal_text(level_id as nat)
        + ", category_id: "@ + decimal_text(category_id as nat)
}

fn no_questions_message(level_id: u32, category_id: u32) -> (r: String)
    ensures
        r@ == no_questions_text(level_id, category_id),
{
    let mut s = "database has not questions, level_id: ".to_string();
    push_decimal(&mut s, level_id);
    s.append(", category_id: ");
    push_decimal(&mut s, category_id);
    assert(s@ =~= no_questions_text(level_id, category_id));
    s
}

/// The question endpoint, given the questions of the level and category in
/// the path (id descending): `NotFound` when there are none, else the
/// selection that the optional limit asks for.
pub fn get(path_params: PathParams, query_params: QueryParams, questions: Vec<Question>) -> (r:
    Envelope<Vec<Question>>)
    ensures
        questions@.len() == 0 ==> {
            &&& r.code == STATUS_NOT_FOUND
            &&& r.message@ == "Not Found"@
            &&& r.data is None
            &&& r.error is Some
            &&& r.error->Some_0@ == no_questions_text(path_params.level_id, path_params.category_id)
        },
        questions@.len() > 0 ==> {
            &&& r.code == STATUS_OK
            &&& r.message@ == "ok"@
            &&& r.error is None
            &&& r.data is Some
            &&& (query_params.limit is None ==> r.data->Some_0@ == questions@)
            &&& (query_params.limit is Some && questions@.len() <= query_params.limit->Some_0
                ==> r.data->Some_0@ == questions@)
            &&& (query_params.limit is Some && questions@.len() > query_params.limit->Some_0
                ==> is_sample_of(r.data->Some_0@, questions@, query_params.limit->Some_0))
        },
{
    if questions.len() == 0 {
        let text = no_questions_message(path_params.level_id, path_params.category_id);
        return response_handler(STATUS_NOT_FOUND, "Not Found".to_string(), None, Some(text));
    }
    let selected = select_questions(questions, query_params.limit);
    response_handler(STATUS_OK, "ok".to_string(), Some(selected), None)
}

} // verus!
