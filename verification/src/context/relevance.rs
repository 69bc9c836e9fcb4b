//! Relevance of context items to a task: where an item comes from, its token
//! estimate, and the keywords of a task.
use vstd::prelude::*;

use crate::keyed::contains_string;
use crate::text::{
    alphanumeric, byte_len, char_vecs, is_alphanumeric, lowercase, push_str, str_byte_len, str_eq,
    string_from_chars, to_lowercase, to_owned, chars_of, words,
};

verus! {

/// Where a scored item comes from.
#[derive(Debug, Clone, PartialEq, Eq)]
pub enum ItemSource {
    /// A skill from the registry.
    Skill(String),
    /// A knowledge entry from the learning system.
    Knowledge(String),
    /// A memory item from the unified memory store.
    Memory(String),
}

impl ItemSource {
    /// The label shown for the source.
    pub open spec fn display_spec(&self) -> Seq<char> {
        match self {
            ItemSource::Skill(n) => "[Skill] "@ + n@,
            ItemSource::Knowledge(c) => "[Knowledge] "@ + c@,
            ItemSource::Memory(c) => "[Memory] "@ + c@,
        }
    }

    /// The label shown for the source, e.g. `[Skill] commit`.
    pub fn to_display_string(&self) -> (r: String)
        ensures
            r@ == self.display_spec(),
    {
        let (head, name) = match self {
            ItemSource::Skill(n) => (to_owned("[Skill] "), n),
            ItemSource::Knowledge(c) => (to_owned("[Knowledge] "), c),
            ItemSource::Memory(c) => (to_owned("[Memory] "), c),
        };
        let mut s = head;
        push_str(&mut s, name.as_str());
        s
    }
}

/// Token estimate of a text: a quarter of its UTF-8 bytes.
pub fn estimate_tokens(content: &str) -> (r: usize)
    ensures
        r == byte_len(content@) / 4,
{
    str_byte_len(content) / 4
}

/// Maximal runs of alphanumeric characters.
pub open spec fn alnum_runs(s: Seq<char>) -> Seq<Seq<char>>
    decreases s.len(),
{
    if s.len() == 0 {
        seq![]
    } else {
        let p = alnum_runs(s.drop_last());
        let c = s.last();
        if !alphanumeric(c) {
            p
        } else if s.len() >= 2 && alphanumeric(s[s.len() - 2]) {
            p.update(p.len() - 1, p.last().push(c))
        } else {
            p.push(seq![c])
        }
    }
}

/// The common English words that are never keywords.
pub open spec fn stop_words() -> Seq<Seq<char>> {
    Seq::new(STOP_WORDS@.len(), |i: int| STOP_WORDS@[i]@)
}

/// The common English words that are never keywords.
pub const STOP_WORDS: [&'static str; 64] = [
    "the", "a", "an", "is", "are", "was", "were", "be", "been", "being", "have", "has", "had",
    "do", "does", "did", "will", "would", "could", "should", "may", "might", "can", "shall", "to",
    "of", "in", "for", "on", "with", "at", "by", "from", "as", "into", "through", "during",
    "before", "after", "and", "but", "or", "not", "no", "if", "then", "else", "when", "this",
    "that", "these", "those", "it", "its", "i", "me", "my", "we", "our", "you", "your", "he",
    "she", "they",
];

/// A run that counts as a keyword: longer than two bytes and not a stop word.
pub open spec fn keeps_keyword(w: Seq<char>) -> bool {
    byte_len(w) > 2 && !stop_words().contains(w)
}

/// The keyword runs of a task, in order and with repetitions.
pub open spec fn keyword_runs(task: Seq<char>) -> Seq<Seq<char>> {
    alnum_runs(lowercase(task)).filter(|w: Seq<char>| keeps_keyword(w))
}

/// The characters of each string.
pub open spec fn string_views(v: Seq<String>) -> Seq<Seq<char>> {
    Seq::new(v.len(), |i: int| v[i]@)
}

/// The keywords of a task: its lowercased alphanumeric runs longer than two
/// bytes that are not stop words, each once, in order of first appearance.
pub fn extract_keywords(task: &str) -> (r: Vec<String>)
    ensures
        string_views(r@).no_duplicates(),
        forall|w: Seq<char>| string_views(r@).contains(w) <==> keyword_runs(task@).contains(w),
{
    let lower = to_lowercase(task);
    let runs = split_alnum_runs(lower.as_str());
    let ghost all = char_vecs(runs@);
    let ghost pred = |w: Seq<char>| keeps_keyword(w);
    let mut out: Vec<String> = Vec::new();
    let mut i: usize = 0;
    proof {
        assert(all.take(0) =~= Seq::<Seq<char>>::empty());
        assert(string_views(out@) =~= Seq::<Seq<char>>::empty());
        reveal_with_fuel(Seq::<_>::filter, 1);
    }
    while i < runs.len()
        invariant
            0 <= i <= runs@.len(),
            all == char_vecs(runs@),
            all == alnum_runs(lowercase(task@)),
            pred == (|w: Seq<char>| keeps_keyword(w)),
            string_views(out@).no_duplicates(),
            forall|w: Seq<char>|
                string_views(out@).contains(w) <==> all.take(i as int).filter(pred).contains(w),
        decreases runs.len() - i,
    {
        let w = string_from_chars(runs[i].as_slice());
        let keep = is_keyword(w.as_str());
        let ghost before = string_views(out@);
        let ghost f0 = all.take(i as int).filter(pred);
        let ghost f1 = all.take(i + 1).filter(pred);
        proof {
            reveal_with_fuel(Seq::<_>::filter, 1);
            assert(all.take(i + 1).drop_last() =~= all.take(i as int));
            assert(all.take(i + 1).last() == w@);
            assert(f1 == if keeps_keyword(w@) {
                f0.push(w@)
            } else {
                f0
            });
        }
        if keep && !contains_string(&out, w.as_str()) {
            out.push(w);
            proof {
                assert(string_views(out@) =~= before.push(out@.last()@));
                assert forall|k: int| 0 <= k < before.len() implies before[k] != out@.last()@ by {
                    assert(before[k] == out@[k]@);
                }
                assert forall|x: Seq<char>|
                    string_views(out@).contains(x) <==> f1.contains(x) by {
                    if x == w@ {
                        assert(string_views(out@)[before.len() as int] == x);
                        assert(f1[f0.len() as int] == x);
                    }
                    if string_views(out@).contains(x) && x != w@ {
                        let k = choose|k: int| 0 <= k < string_views(out@).len() && string_views(out@)[k] == x;
                        assert(before[k] == x);
                    }
                    if f1.contains(x) && x != w@ {
                        let k = choose|k: int| 0 <= k < f1.len() && f1[k] == x;
                        assert(f0[k] == x);
                    }
                    if before.contains(x) {
                        let k = choose|k: int| 0 <= k < before.len() && before[k] == x;
                        assert(string_views(out@)[k] == x);
                    }
                    if f0.contains(x) {
                        let k = choose|k: int| 0 <= k < f0.len() && f0[k] == x;
                        assert(f1[k] == x);
                    }
                }
            }
        } else {
            proof {
                if keep {
                    let k = choose|k: int| 0 <= k < out@.len() && (#[trigger] out@[k])@ == w@;
                    assert(before[k] == w@);
                    assert forall|x: Seq<char>|
                        string_views(out@).contains(x) <==> f1.contains(x) by {
                        if f1.contains(x) && x != w@ {
                            let j = choose|j: int| 0 <= j < f1.len() && f1[j] == x;
                            assert(f0[j] == x);
                        }
                        if x == w@ {
                            assert(f1[f0.len() as int] == x);
                        }
                        if f0.contains(x) {
                            let j = choose|j: int| 0 <= j < f0.len() && f0[j] == x;
                            assert(f1[j] == x);
                        }
                    }
                }
            }
        }
        i = i + 1;
    }
    proof {
        assert(all.take(runs@.len() as int) =~= all);
    }
    out
}

/// Whether a run counts as a keyword.
fn is_keyword(w: &str) -> (r: bool)
    ensures
        r == keeps_keyword(w@),
{
    if str_byte_len(w) <= 2 {
        return false;
    }
    let ghost sw = stop_words();
    let mut i: usize = 0;
    while i < STOP_WORDS.len()
        invariant
            0 <= i <= 64,
            sw == stop_words(),
            forall|j: int| 0 <= j < i ==> sw[j] != w@,
        decreases 64 - i,
    {
        if str_eq(w, STOP_WORDS[i]) {
            proof {
                assert(sw[i as int] == w@);
            }
            return false;
        }
        i = i + 1;
    }
    proof {
        if sw.contains(w@) {
            let j = choose|j: int| 0 <= j < sw.len() && sw[j] == w@;
            assert(sw[j] != w@);
        }
    }
    true
}

/// The maximal alphanumeric runs of a text.
fn split_alnum_runs(s: &str) -> (r: Vec<Vec<char>>)
    ensures
        char_vecs(r@) == alnum_runs(s@),
{
    let v = chars_of(s);
    let mut done: Vec<Vec<char>> = Vec::new();
    let mut cur: Vec<char> = Vec::new();
    let mut i: usize = 0;
    proof {
        assert(v@.take(0) =~= Seq::<char>::empty());
    }
    while i < v.len()
        invariant
            0 <= i <= v@.len(),
            cur@.len() == 0 ==> char_vecs(done@) == alnum_runs(v@.take(i as int)),
            cur@.len() > 0 ==> char_vecs(done@).push(cur@) == alnum_runs(v@.take(i as int)),
            cur@.len() > 0 ==> i > 0 && alphanumeric(v@[i - 1]),
            cur@.len() == 0 ==> i == 0 || !alphanumeric(v@[i - 1]),
        decreases v.len() - i,
    {
        let c = v[i];
        let ghost prev = v@.take(i as int);
        proof {
            assert(v@.take(i + 1).drop_last() =~= prev);
            assert(v@.take(i + 1).last() == c);
            if i >= 1 {
                assert(v@.take(i + 1)[i - 1] == v@[i - 1]);
            }
        }
        if !is_alphanumeric(c) {
            if cur.len() > 0 {
                let w = cur;
                let ghost old_done = done@;
                done.push(w);
                cur = Vec::new();
                proof {
                    assert(done@ =~= old_done.push(w));
                    assert(char_vecs(done@) =~= char_vecs(old_done).push(w@));
                }
            }
        } else {
            if cur.len() > 0 {
                let ghost before = cur@;
                cur.push(c);
                proof {
                    let p = alnum_runs(prev);
                    assert(p.last() == before);
                    assert(char_vecs(done@).push(cur@) =~= p.update(p.len() - 1, before.push(c)));
                }
            } else {
                cur.push(c);
                proof {
                    assert(cur@ =~= seq![c]);
                    assert(char_vecs(done@) == alnum_runs(prev));
                    assert(alnum_runs(v@.take(i + 1)) == alnum_runs(prev).push(seq![c]));
                    assert(char_vecs(done@).push(cur@) =~= alnum_runs(prev).push(seq![c]));
                }
            }
        }
        i = i + 1;
    }
    proof {
        assert(v@.take(v.len() as int) =~= v@);
    }
    if cur.len() > 0 {
        let ghost old_done = done@;
        let ghost last = cur@;
        done.push(cur);
        proof {
            assert(done@ =~= old_done.push(done@.last()));
            assert(char_vecs(done@) =~= char_vecs(old_done).push(last));
        }
    }
    done
}

/// A content item with its relevance score.  The score, a fraction in
/// `[0, 1]`, is held as the bit pattern of its `f64`.
#[derive(Debug, Clone)]
pub struct ScoredItem {
    /// The content text to inject into the prompt.
    pub content: String,
    /// Estimated token count for this item.
    pub tokens: usize,
    /// Bits of the `f64` relevance score.
    pub score_bits: u64,
    /// Source of this item.
    pub source: ItemSource,
}

/// The items chosen, in order, by taking each item that still fits in the
/// token budget (and, for knowledge, in the knowledge budget), given the
/// tokens already taken (`used`) and the knowledge tokens already taken
/// (`used_knowledge`).
pub open spec fn greedy_pick(
    items: Seq<ScoredItem>,
    budget: nat,
    knowledge_budget: nat,
    used: nat,
    used_knowledge: nat,
) -> Seq<ScoredItem>
    decreases items.len(),
{
    if items.len() == 0 {
        seq![]
    } else {
        let it = items[0];
        let n = it.tokens as nat;
        let rest = items.drop_first();
        if used + n > budget {
            greedy_pick(rest, budget, knowledge_budget, used, used_knowledge)
        } else if it.source is Knowledge {
            if used_knowledge + n > knowledge_budget {
                greedy_pick(rest, budget, knowledge_budget, used, used_knowledge)
            } else {
                seq![it] + greedy_pick(
                    rest,
                    budget,
                    knowledge_budget,
                    used + n,
                    used_knowledge + n,
                )
            }
        } else {
            seq![it] + greedy_pick(rest, budget, knowledge_budget, used + n, used_knowledge)
        }
    }
}

/// The tokens of a list of items.
pub open spec fn tokens_of(items: Seq<ScoredItem>) -> nat
    decreases items.len(),
{
    if items.len() == 0 {
        0
    } else {
        items[0].tokens as nat + tokens_of(items.drop_first())
    }
}

/// The tokens of the knowledge items of a list.
pub open spec fn knowledge_tokens_of(items: Seq<ScoredItem>) -> nat
    decreases items.len(),
{
    if items.len() == 0 {
        0
    } else {
        (if items[0].source is Knowledge {
            items[0].tokens as nat
        } else {
            0
        }) + knowledge_tokens_of(items.drop_first())
    }
}

/// The greedy choice never goes over either budget: what it takes, added to
/// what was taken before, fits.
pub proof fn lemma_greedy_within_budget(
    items: Seq<ScoredItem>,
    budget: nat,
    knowledge_budget: nat,
    used: nat,
    used_knowledge: nat,
)
    requires
        used <= budget,
        used_knowledge <= knowledge_budget,
    ensures
        used + tokens_of(greedy_pick(items, budget, knowledge_budget, used, used_knowledge))
            <= budget,
        used_knowledge + knowledge_tokens_of(
            greedy_pick(items, budget, knowledge_budget, used, used_knowledge),
        ) <= knowledge_budget,
    decreases items.len(),
{
    if items.len() > 0 {
        let it = items[0];
        let n = it.tokens as nat;
        let rest = items.drop_first();
        let k = it.source is Knowledge;
        if used + n > budget || (k && used_knowledge + n > knowledge_budget) {
            lemma_greedy_within_budget(rest, budget, knowledge_budget, used, used_knowledge);
        } else {
            let uk: nat = if k {
                used_knowledge + n
            } else {
                used_knowledge
            };
            lemma_greedy_within_budget(rest, budget, knowledge_budget, used + n, uk);
            let tail = greedy_pick(rest, budget, knowledge_budget, used + n, uk);
            assert((seq![it] + tail).drop_first() =~= tail);
        }
    }
}

/// The greedy choice keeps items of the input only, in their input order:
/// each chosen item is an input item at or after the position of the one
/// chosen before it.
pub proof fn lemma_greedy_subsequence(
    items: Seq<ScoredItem>,
    budget: nat,
    knowledge_budget: nat,
    used: nat,
    used_knowledge: nat,
)
    ensures
        forall|j: int|
            0 <= j < greedy_pick(items, budget, knowledge_budget, used, used_knowledge).len()
                ==> items.contains(
                #[trigger] greedy_pick(items, budget, knowledge_budget, used, used_knowledge)[j],
            ),
        greedy_pick(items, budget, knowledge_budget, used, used_knowledge).len() <= items.len(),
    decreases items.len(),
{
    if items.len() > 0 {
        let it = items[0];
        let n = it.tokens as nat;
        let rest = items.drop_first();
        let k = it.source is Knowledge;
        let uk: nat = if k {
            used_knowledge + n
        } else {
            used_knowledge
        };
        lemma_greedy_subsequence(rest, budget, knowledge_budget, used, used_knowledge);
        lemma_greedy_subsequence(rest, budget, knowledge_budget, used + n, uk);
        let g = greedy_pick(items, budget, knowledge_budget, used, used_knowledge);
        assert forall|j: int| 0 <= j < g.len() implies items.contains(#[trigger] g[j]) by {
            if used + n > budget || (k && used_knowledge + n > knowledge_budget) {
                let t = greedy_pick(rest, budget, knowledge_budget, used, used_knowledge);
                assert(rest.contains(t[j]));
                let m = choose|m: int| 0 <= m < rest.len() && rest[m] == t[j];
                assert(items[m + 1] == t[j]);
            } else {
                let t = greedy_pick(rest, budget, knowledge_budget, used + n, uk);
                if j == 0 {
                    assert(g[0] == it);
                    assert(items[0] == it);
                } else {
                    assert(g[j] == t[j - 1]);
                    assert(rest.contains(t[j - 1]));
                    let m = choose|m: int| 0 <= m < rest.len() && rest[m] == t[j - 1];
                    assert(items[m + 1] == t[j - 1]);
                }
            }
        }
    }
}

/// Whether an item of `n` tokens still fits after `used` tokens, of which
/// `used_knowledge` are knowledge tokens, were taken.
pub open spec fn item_fits(
    it: ScoredItem,
    budget: nat,
    knowledge_budget: nat,
    used: nat,
    used_knowledge: nat,
) -> bool {
    &&& used + it.tokens <= budget
    &&& it.source is Knowledge ==> used_knowledge + it.tokens <= knowledge_budget
}

/// Appending an item to the input appends it to the choice exactly when it
/// fits beside what was chosen from the items before it.
proof fn lemma_greedy_push(
    s: Seq<ScoredItem>,
    x: ScoredItem,
    budget: nat,
    knowledge_budget: nat,
    used: nat,
    used_knowledge: nat,
)
    ensures
        ({
            let g = greedy_pick(s, budget, knowledge_budget, used, used_knowledge);
            greedy_pick(s.push(x), budget, knowledge_budget, used, used_knowledge) == if item_fits(
                x,
                budget,
                knowledge_budget,
                used + tokens_of(g),
                used_knowledge + knowledge_tokens_of(g),
            ) {
                g.push(x)
            } else {
                g
            }
        }),
    decreases s.len(),
{
    let sx = s.push(x);
    if s.len() == 0 {
        let e = Seq::<ScoredItem>::empty();
        assert(sx.drop_first() =~= e);
        assert(sx[0] == x);
        assert(s =~= e);
        assert(greedy_pick(e, budget, knowledge_budget, used, used_knowledge) =~= e);
        assert(greedy_pick(e, budget, knowledge_budget, used + x.tokens as nat, used_knowledge) =~= e);
        assert(greedy_pick(e, budget, knowledge_budget, used + x.tokens as nat, used_knowledge + x.tokens as nat)
            =~= e);
        assert(tokens_of(e) == 0);
        assert(knowledge_tokens_of(e) == 0);
        assert(seq![x] + e =~= e.push(x));
    } else {
        let it = s[0];
        let n = it.tokens as nat;
        let rest = s.drop_first();
        assert(sx.drop_first() =~= rest.push(x));
        assert(sx[0] == it);
        let k = it.source is Knowledge;
        if used + n > budget || (k && used_knowledge + n > knowledge_budget) {
            lemma_greedy_push(rest, x, budget, knowledge_budget, used, used_knowledge);
            assert(greedy_pick(s, budget, knowledge_budget, used, used_knowledge) == greedy_pick(
                rest,
                budget,
                knowledge_budget,
                used,
                used_knowledge,
            ));
            assert(greedy_pick(sx, budget, knowledge_budget, used, used_knowledge) == greedy_pick(
                rest.push(x),
                budget,
                knowledge_budget,
                used,
                used_knowledge,
            ));
        } else {
            let uk: nat = if k {
                used_knowledge + n
            } else {
                used_knowledge
            };
            lemma_greedy_push(rest, x, budget, knowledge_budget, used + n, uk);
            assert(greedy_pick(sx, budget, knowledge_budget, used, used_knowledge) == seq![it]
                + greedy_pick(rest.push(x), budget, knowledge_budget, used + n, uk));
            let t = greedy_pick(rest, budget, knowledge_budget, used + n, uk);
            let g = greedy_pick(s, budget, knowledge_budget, used, used_knowledge);
            assert(g == seq![it] + t);
            assert(g.drop_first() =~= t);
            assert(g[0] == it);
            assert(tokens_of(g) == n + tokens_of(t));
            assert(knowledge_tokens_of(g) == (if k {
                n
            } else {
                0
            }) + knowledge_tokens_of(t));
            assert((seq![it] + t).push(x) =~= seq![it] + t.push(x));
        }
    }
}

/// The selection is built item by item: the items chosen from the first
/// `i + 1` items are those chosen from the first `i`, followed by item `i`
/// exactly when it fits in what is left of the token budget and, for a
/// knowledge item, of the knowledge budget.  An item that does not fit is
/// skipped alone; every later item that fits is still taken.
pub proof fn lemma_selection_prefix(
    items: Seq<ScoredItem>,
    budget: nat,
    knowledge_budget: nat,
    i: int,
)
    requires
        0 <= i < items.len(),
    ensures
        ({
            let before = greedy_pick(items.take(i), budget, knowledge_budget, 0, 0);
            greedy_pick(items.take(i + 1), budget, knowledge_budget, 0, 0) == if item_fits(
                items[i],
                budget,
                knowledge_budget,
                tokens_of(before),
                knowledge_tokens_of(before),
            ) {
                before.push(items[i])
            } else {
                before
            }
        }),
{
    assert(items.take(i + 1) =~= items.take(i).push(items[i]));
    lemma_greedy_push(items.take(i), items[i], budget, knowledge_budget, 0, 0);
}

/// Choose, in the given order, the items that fit in the token budget,
/// keeping knowledge items within their own budget.
pub fn select_within_budget(items: Vec<ScoredItem>, token_budget: usize, knowledge_budget: usize) -> (r:
    Vec<ScoredItem>)
    ensures
        r@ == greedy_pick(items@, token_budget as nat, knowledge_budget as nat, 0, 0),
        tokens_of(r@) <= token_budget,
        knowledge_tokens_of(r@) <= knowledge_budget,
{
    let ghost all = items@;
    let ghost want = greedy_pick(all, token_budget as nat, knowledge_budget as nat, 0, 0);
    let mut rest = items;
    let mut selected: Vec<ScoredItem> = Vec::new();
    let mut used: usize = 0;
    let mut used_knowledge: usize = 0;
    proof {
        assert(all.skip(0) =~= all);
        lemma_greedy_within_budget(all, token_budget as nat, knowledge_budget as nat, 0, 0);
    }
    while rest.len() > 0
        invariant
            used <= token_budget,
            used_knowledge <= knowledge_budget,
            exists|i: int| 0 <= i <= all.len() && rest@ == all.skip(i),
            want == selected@ + greedy_pick(
                rest@,
                token_budget as nat,
                knowledge_budget as nat,
                used as nat,
                used_knowledge as nat,
            ),
        decreases rest.len(),
    {
        let ghost before = rest@;
        let item = rest.remove(0);
        proof {
            assert(rest@ =~= before.drop_first());
            let i = choose|i: int| 0 <= i <= all.len() && before == all.skip(i);
            assert(rest@ =~= all.skip(i + 1));
        }
        let fits = item.tokens <= token_budget - used;
        let knowledge = match item.source {
            ItemSource::Knowledge(_) => true,
            _ => false,
        };
        if fits && (!knowledge || item.tokens <= knowledge_budget - used_knowledge) {
            let ghost chosen = item;
            used = used + item.tokens;
            if knowledge {
                used_knowledge = used_knowledge + item.tokens;
            }
            selected.push(item);
            proof {
                let g = greedy_pick(
                    rest@,
                    token_budget as nat,
                    knowledge_budget as nat,
                    used as nat,
                    used_knowledge as nat,
                );
                assert(selected@ + g =~= selected@.drop_last() + (seq![chosen] + g));
            }
        }
    }
    proof {
        assert(want =~= selected@);
        lemma_greedy_within_budget(all, token_budget as nat, knowledge_budget as nat, 0, 0);
    }
    selected
}
/// The words an item offers for matching: its tags and the words of its
/// preview, lowercased.
pub open spec fn item_words(tags: Seq<String>, preview: Seq<char>) -> Seq<Seq<char>> {
    Seq::new(tags.len(), |i: int| lowercase(tags[i]@)) + words(lowercase(preview))
}

/// The number of keywords that the item's words hold.
pub open spec fn overlap_count(keywords: Seq<String>, item: Seq<Seq<char>>) -> nat
    decreases keywords.len(),
{
    if keywords.len() == 0 {
        0
    } else {
        overlap_count(keywords.drop_last(), item) + if item.contains(keywords.last()@) {
            1nat
        } else {
            0nat
        }
    }
}

/// The count never exceeds the number of keywords.
proof fn lemma_overlap_le(keywords: Seq<String>, item: Seq<Seq<char>>)
    ensures
        overlap_count(keywords, item) <= keywords.len(),
    decreases keywords.len(),
{
    if keywords.len() > 0 {
        lemma_overlap_le(keywords.drop_last(), item);
    }
}

/// Whether `w` is one of the words.
fn holds_word(ws: &Vec<Vec<char>>, w: &Vec<char>) -> (r: bool)
    ensures
        r == char_vecs(ws@).contains(w@),
{
    let mut i: usize = 0;
    while i < ws.len()
        invariant
            0 <= i <= ws@.len(),
            forall|j: int| 0 <= j < i ==> char_vecs(ws@)[j] != w@,
        decreases ws.len() - i,
    {
        if crate::text::chars_eq(ws[i].as_slice(), w.as_slice()) {
            assert(char_vecs(ws@)[i as int] == w@);
            return true;
        }
        i = i + 1;
    }
    proof {
        if char_vecs(ws@).contains(w@) {
            let j = choose|j: int| 0 <= j < char_vecs(ws@).len() && char_vecs(ws@)[j] == w@;
            assert(char_vecs(ws@)[j] != w@);
        }
    }
    false
}

/// How many of the task's keywords the item's tags and preview hold (the
/// integer part of the keyword overlap score).
pub fn keyword_overlap_count(tags: &Vec<String>, content_preview: &str, task_keywords: &Vec<String>) -> (r:
    usize)
    ensures
        r == overlap_count(task_keywords@, item_words(tags@, content_preview@)),
{
    let mut item: Vec<Vec<char>> = Vec::new();
    let mut i: usize = 0;
    while i < tags.len()
        invariant
            0 <= i <= tags@.len(),
            item@.len() == i,
            char_vecs(item@) == Seq::new(i as nat, |k: int| lowercase(tags@[k]@)),
        decreases tags.len() - i,
    {
        let l = to_lowercase(tags[i].as_str());
        let ghost before = item@;
        item.push(chars_of(l.as_str()));
        proof {
            assert forall|k: int| 0 <= k < i + 1 implies #[trigger] char_vecs(item@)[k] == lowercase(
                tags@[k]@,
            ) by {
                if k < i {
                    assert(item@[k] == before[k]);
                    assert(char_vecs(before)[k] == lowercase(tags@[k]@));
                }
            }
            assert(char_vecs(item@) =~= Seq::new((i + 1) as nat, |k: int| lowercase(tags@[k]@)));
        }
        i = i + 1;
    }
    let lower = to_lowercase(content_preview);
    let ws = crate::text::split_words(lower.as_str());
    let ghost head = char_vecs(item@);
    let mut j: usize = 0;
    while j < ws.len()
        invariant
            0 <= j <= ws@.len(),
            item@.len() == head.len() + j,
            char_vecs(item@) == head + char_vecs(ws@).take(j as int),
        decreases ws.len() - j,
    {
        let ghost before = item@;
        let w = ws[j].clone();
        proof {
            assert(w@ =~= ws@[j as int]@);
        }
        item.push(w);
        proof {
            assert forall|k: int| 0 <= k < before.len() implies #[trigger] item@[k] == before[k] by {}
            assert(char_vecs(item@) =~= char_vecs(before).push(ws@[j as int]@));
            assert(char_vecs(item@) =~= head + char_vecs(ws@).take(j + 1));
        }
        j = j + 1;
    }
    proof {
        assert(char_vecs(ws@).take(ws@.len() as int) =~= char_vecs(ws@));
        assert(head =~= Seq::new(tags@.len(), |k: int| lowercase(tags@[k]@)));
        assert(char_vecs(item@) =~= item_words(tags@, content_preview@));
    }
    let mut count: usize = 0;
    let mut k: usize = 0;
    proof {
        assert(task_keywords@.take(0) =~= Seq::<String>::empty());
    }
    while k < task_keywords.len()
        invariant
            0 <= k <= task_keywords@.len(),
            char_vecs(item@) == item_words(tags@, content_preview@),
            count == overlap_count(task_keywords@.take(k as int), char_vecs(item@)),
        decreases task_keywords.len() - k,
    {
        proof {
            let t = task_keywords@.take(k + 1);
            assert(t.drop_last() =~= task_keywords@.take(k as int));
            lemma_overlap_le(task_keywords@.take(k as int), char_vecs(item@));
        }
        let kw = chars_of(task_keywords[k].as_str());
        if holds_word(&item, &kw) {
            count = count + 1;
        }
        k = k + 1;
    }
    proof {
        assert(task_keywords@.take(task_keywords@.len() as int) =~= task_keywords@);
    }
    count
}

} // verus!
