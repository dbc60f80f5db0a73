use vstd::prelude::*;

use crate::utils::{
    error_response, han_count, kanji_len, response_handler, status_of, ApiError, Envelope,
    STATUS_OK,
};

verus! {

/// A level.
#[derive(Debug, Clone)]
pub struct Value {
    pub id: u32,
    pub name: String,
}

/// A category, scoped to a level.
#[derive(Debug, Clone)]
pub struct CatValue {
    pub level_id: u32,
    pub id: u32,
    pub name: String,
}

/// The read model of the meta endpoint: every level and every category.
#[derive(Debug, Clone)]
pub struct Meta {
    pub levels: Vec<Value>,
    pub categories: Vec<CatValue>,
}

/// A level together with the number of questions it holds.
#[derive(Debug, Clone)]
pub struct NewValue {
    pub id: u32,
    pub name: String,
    pub reten: u32,
}

/// A category together with the number of questions it holds.
#[derive(Debug, Clone)]
pub struct NewCatValue {
    pub level_id: u32,
    pub id: u32,
    pub name: String,
    pub reten: u32,
}

/// The sort key of a category: the Han ideographs in its name.
pub open spec fn cat_key(c: CatValue) -> nat {
    han_count(c.name@)
}

pub open spec fn has_key(k: nat) -> spec_fn(CatValue) -> bool {
    |c: CatValue| cat_key(c) == k
}

pub open spec fn sorted_by_key(s: Seq<CatValue>) -> bool {
    forall|i: int, j: int| 0 <= i < j < s.len() ==> cat_key(s[i]) <= cat_key(s[j])
}

/// `out` orders the categories of `inp` by key, ascending, keeping the
/// relative order of categories with equal keys.
pub open spec fn stable_sorted_of(out: Seq<CatValue>, inp: Seq<CatValue>) -> bool {
    &&& sorted_by_key(out)
    &&& forall|k: nat| #[trigger] out.filter(has_key(k)) == inp.filter(has_key(k))
}

proof fn lemma_filter_push(s: Seq<CatValue>, x: CatValue, k: nat)
    ensures
        s.push(x).filter(has_key(k)) == if cat_key(x) == k {
            s.filter(has_key(k)).push(x)
        } else {
            s.filter(has_key(k))
        },
{
    reveal(Seq::filter);
    assert(s.push(x).drop_last() =~= s);
}

proof fn lemma_filter_none(s: Seq<CatValue>, k: nat)
    requires
        forall|i: int| 0 <= i < s.len() ==> cat_key(s[i]) > k,
    ensures
        s.filter(has_key(k)) =~= Seq::<CatValue>::empty(),
    decreases s.len(),
{
    reveal(Seq::filter);
    if s.len() > 0 {
        lemma_filter_none(s.drop_last(), k);
    }
}

proof fn lemma_filter_single(x: CatValue, k: nat)
    ensures
        seq![x].filter(has_key(k)) == if cat_key(x) == k {
            seq![x]
        } else {
            Seq::<CatValue>::empty()
        },
{
    reveal(Seq::filter);
    assert(seq![x].drop_last() =~= Seq::<CatValue>::empty());
    assert(Seq::<CatValue>::empty().filter(has_key(k)) =~= Seq::<CatValue>::empty());
    assert(Seq::<CatValue>::empty().push(x) =~= seq![x]);
}

/// Orders categories by the number of Han ideographs in their names,
/// ascending; categories with equal counts keep their relative order.
pub fn sort_categories(categories: Vec<CatValue>) -> (r: Vec<CatValue>)
    ensures
        stable_sorted_of(r@, categories@),
{
    let ghost inp = categories@;
    let mut rest = categories;
    let mut out: Vec<CatValue> = Vec::new();
    let mut keys: Vec<usize> = Vec::new();
    let ghost mut done: Seq<CatValue> = Seq::empty();
    proof {
        assert(inp =~= done + rest@);
        assert forall|j: nat| #[trigger] out@.filter(has_key(j)) == done.filter(has_key(j)) by {
            reveal(Seq::filter);
        }
    }
    while rest.len() > 0
        invariant
            inp == done + rest@,
            keys@.len() == out@.len(),
            forall|i: int| 0 <= i < out@.len() ==> keys@[i] as nat == cat_key(#[trigger] out@[i]),
            sorted_by_key(out@),
            forall|j: nat| #[trigger] out@.filter(has_key(j)) == done.filter(has_key(j)),
        decreases rest@.len(),
    {
        let ghost before = rest@;
        let c = rest.remove(0);
        let k = kanji_len(c.name.as_str());
        let mut p: usize = 0;
        while p < keys.len() && keys[p] <= k
            invariant
                p <= keys@.len(),
                forall|i: int| 0 <= i < p ==> keys@[i] <= k,
            decreases keys@.len() - p,
        {
            p = p + 1;
        }
        proof {
            let old_out = out@;
            let n = old_out.len() as int;
            let a = old_out.subrange(0, p as int);
            let b = old_out.subrange(p as int, n);
            assert forall|i: int| p <= i < n implies cat_key(#[trigger] old_out[i]) > k by {
                assert(keys@[p as int] > k);
                assert(cat_key(old_out[p as int]) <= cat_key(old_out[i]));
            }
            assert forall|i: int| 0 <= i < b.len() implies cat_key(#[trigger] b[i]) > k by {
                assert(b[i] == old_out[p + i]);
            }
            let new_out = old_out.insert(p as int, c);
            assert(new_out =~= (a + seq![c]) + b);
            assert(old_out =~= a + b);
            assert forall|j: nat| #[trigger] new_out.filter(has_key(j)) == done.push(c).filter(
                has_key(j),
            ) by {
                Seq::filter_distributes_over_add(a + seq![c], b, has_key(j));
                Seq::filter_distributes_over_add(a, seq![c], has_key(j));
                Seq::filter_distributes_over_add(a, b, has_key(j));
                lemma_filter_single(c, j);
                lemma_filter_push(done, c, j);
                assert(old_out.filter(has_key(j)) == done.filter(has_key(j)));
                if j == k as nat {
                    lemma_filter_none(b, j);
                    assert(new_out.filter(has_key(j)) =~= a.filter(has_key(j)).push(c));
                    assert(old_out.filter(has_key(j)) =~= a.filter(has_key(j)));
                } else {
                    assert(new_out.filter(has_key(j)) =~= a.filter(has_key(j)) + b.filter(
                        has_key(j),
                    ));
                }
            }
            assert(before =~= seq![c] + rest@);
            assert(inp =~= done.push(c) + rest@);
            assert(sorted_by_key(new_out));
        }
        out.insert(p, c);
        keys.insert(p, k);
        proof {
            done = done.push(c);
        }
    }
    assert(done =~= inp);
    out
}

/// The meta endpoint: every level, and every category ordered by the Han
/// ideographs in its name. Fails with `NotFound` when either list is empty
/// (a failed read counts as empty).
pub fn get(levels: Vec<Value>, categories: Vec<CatValue>) -> (r: Envelope<Meta>)
    ensures
        levels@.len() == 0 || categories@.len() == 0 ==> {
            &&& r.code == status_of(ApiError::NotFound)
            &&& r.message@ == "error"@
            &&& r.data is None
            &&& r.error is Some && r.error->Some_0@ == "meta data not found"@
        },
        levels@.len() > 0 && categories@.len() > 0 ==> {
            &&& r.code == STATUS_OK
            &&& r.message@ == "success"@
            &&& r.error is None
            &&& r.data is Some
            &&& r.data->Some_0.levels@ == levels@
            &&& stable_sorted_of(r.data->Some_0.categories@, categories@)
        },
{
    if categories.len() == 0 || levels.len() == 0 {
        return error_response(ApiError::NotFound, "meta data not found".to_string());
    }
    let categories = sort_categories(categories);
    let meta = Meta { levels, categories };
    response_handler(STATUS_OK, "success".to_string(), Some(meta), None)
}

} // verus!
