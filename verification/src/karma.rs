//! Karma retrieval: the full-text query, the cache key and lesson labelling.
use vstd::prelude::*;
use crate::text::{append_signed_decimal, append_str, chars_of, copy_str, push_char, signed_decimal, str_eq};

verus! {

/// `s` with every `"` doubled, as SQLite escapes a quote inside a string.
pub open spec fn double_quotes(s: Seq<char>) -> Seq<char>
    decreases s.len(),
{
    if s.len() == 0 {
        Seq::empty()
    } else if s.last() == '"' {
        double_quotes(s.drop_last()) + seq!['"', '"']
    } else {
        double_quotes(s.drop_last()).push(s.last())
    }
}

/// Reads an escaped text back: a doubled `"` stands for one quote.
pub open spec fn undouble_quotes(s: Seq<char>) -> Seq<char>
    decreases s.len(),
{
    if s.len() == 0 {
        Seq::empty()
    } else if s[0] == '"' && s.len() >= 2 && s[1] == '"' {
        seq!['"'] + undouble_quotes(s.skip(2))
    } else {
        seq![s[0]] + undouble_quotes(s.skip(1))
    }
}

/// No single `"` is left: every quote comes in a pair.
pub open spec fn quotes_paired(s: Seq<char>) -> bool
    decreases s.len(),
{
    if s.len() == 0 {
        true
    } else if s[0] == '"' {
        s.len() >= 2 && s[1] == '"' && quotes_paired(s.skip(2))
    } else {
        quotes_paired(s.skip(1))
    }
}

/// The full-text phrase query for `topic`: the topic with its quotes
/// doubled, between quotes, so that it is matched as one literal phrase.
pub open spec fn fts_phrase(topic: Seq<char>) -> Seq<char> {
    seq!['"'] + double_quotes(topic) + seq!['"']
}

/// The phrase query of `topic`.
pub fn fts_phrase_query(topic: &str) -> (r: String)
    ensures
        r@ == fts_phrase(topic@),
{
    let v = chars_of(topic);
    let mut out = String::new();
    push_char(&mut out, '"');
    let mut i: usize = 0;
    proof {
        assert(v@.take(0) =~= Seq::<char>::empty());
    }
    while i < v.len()
        invariant
            i <= v@.len(),
            v@ == topic@,
            out@ == seq!['"'] + double_quotes(v@.take(i as int)),
        decreases v.len() - i,
    {
        let c = v[i];
        push_char(&mut out, c);
        if c == '"' {
            push_char(&mut out, '"');
        }
        proof {
            assert(v@.take(i + 1).drop_last() =~= v@.take(i as int));
        }
        i = i + 1;
    }
    push_char(&mut out, '"');
    proof {
        assert(v@.take(v@.len() as int) =~= v@);
    }
    out
}

proof fn lemma_prepend(c: char, s: Seq<char>)
    ensures
        double_quotes(seq![c] + s) == (if c == '"' {
            seq!['"', '"']
        } else {
            seq![c]
        }) + double_quotes(s),
    decreases s.len(),
{
    let pre = if c == '"' {
        seq!['"', '"']
    } else {
        seq![c]
    };
    let t = seq![c] + s;
    if s.len() == 0 {
        assert(t =~= seq![c]);
        assert(t.drop_last() =~= Seq::<char>::empty());
        assert(double_quotes(t.drop_last()) =~= Seq::<char>::empty());
        assert(double_quotes(t) =~= pre);
        assert(double_quotes(s) =~= Seq::<char>::empty());
        assert(double_quotes(t) =~= pre + double_quotes(s));
    } else {
        assert(t.drop_last() =~= seq![c] + s.drop_last());
        assert(t.last() == s.last());
        lemma_prepend(c, s.drop_last());
        if s.last() == '"' {
            assert(double_quotes(t) =~= pre + double_quotes(s.drop_last()) + seq!['"', '"']);
            assert(double_quotes(s) =~= double_quotes(s.drop_last()) + seq!['"', '"']);
        } else {
            assert(double_quotes(t) =~= (pre + double_quotes(s.drop_last())).push(s.last()));
            assert(double_quotes(s) =~= double_quotes(s.drop_last()).push(s.last()));
        }
        assert(double_quotes(t) =~= pre + double_quotes(s));
    }
}

/// Escaping loses nothing: reading the escaped text back gives the text itself,
/// and the escaped text holds no lone quote that could end the phrase early.
pub proof fn law_quote_escaping_round_trip(s: Seq<char>)
    ensures
        undouble_quotes(double_quotes(s)) == s,
        quotes_paired(double_quotes(s)),
    decreases s.len(),
{
    if s.len() > 0 {
        let rest = s.skip(1);
        law_quote_escaping_round_trip(rest);
        assert(s =~= seq![s[0]] + rest);
        lemma_prepend(s[0], rest);
        let d = double_quotes(s);
        if s[0] == '"' {
            assert(d =~= seq!['"', '"'] + double_quotes(rest));
            assert(d.skip(2) =~= double_quotes(rest));
        } else {
            assert(d =~= seq![s[0]] + double_quotes(rest));
            assert(d.skip(1) =~= double_quotes(rest));
        }
        assert(undouble_quotes(d) =~= s);
    }
}

/// The cache key of a karma query: `skill:topic:limit:soul`. The current
/// soul version is part of the key, since the lessons handed out are
/// labelled against it: a query under another soul must not be answered
/// from the cache of the previous one.
pub open spec fn karma_cache_key_text(skill_id: Seq<char>, topic: Seq<char>, limit: int, soul_hash: Seq<char>) -> Seq<char> {
    skill_id + ":"@ + topic + ":"@ + signed_decimal(limit) + ":"@ + soul_hash
}

pub fn karma_cache_key(skill_id: &str, topic: &str, limit: i64, current_soul_hash: &str) -> (r: String)
    ensures
        r@ == karma_cache_key_text(skill_id@, topic@, limit as int, current_soul_hash@),
{
    let mut out = copy_str(skill_id);
    append_str(&mut out, ":");
    append_str(&mut out, topic);
    append_str(&mut out, ":");
    append_signed_decimal(&mut out, limit);
    append_str(&mut out, ":");
    append_str(&mut out, current_soul_hash);
    out
}

/// The notice before a lesson learnt under an older soul.
pub open spec fn legacy_notice() -> Seq<char> {
    "[LEGACY KARMA - from an older Soul version]\n"@
}

/// A lesson as handed to a job: marked as legacy when it was recorded under
/// a soul version other than the current one.
pub open spec fn labelled_lesson(lesson: Seq<char>, soul_hash: Option<Seq<char>>, current: Seq<char>) -> Seq<char> {
    match soul_hash {
        Some(h) => if h != current {
            legacy_notice() + lesson
        } else {
            lesson
        },
        None => lesson,
    }
}

pub fn label_lesson(lesson: &str, soul_hash: Option<&str>, current: &str) -> (r: String)
    ensures
        r@ == labelled_lesson(
            lesson@,
            match soul_hash {
                Some(h) => Some(h@),
                None => None,
            },
            current@,
        ),
{
    match soul_hash {
        Some(h) => {
            if !str_eq(h, current) {
                let mut out = copy_str("[LEGACY KARMA - from an older Soul version]\n");
                append_str(&mut out, lesson);
                out
            } else {
                copy_str(lesson)
            }
        },
        None => copy_str(lesson),
    }
}

/// The view of an optional string.
pub open spec fn opt_view(h: Option<String>) -> Option<Seq<char>> {
    match h {
        Some(s) => Some(s@),
        None => None,
    }
}

/// A karma candidate after ranking: its id, its lesson and the soul version
/// it was recorded under (if known).
pub struct RankedLesson {
    pub id: String,
    pub lesson: String,
    pub soul_hash: Option<String>,
}

/// A lesson handed to a job.
pub struct KarmaEntry {
    pub id: String,
    pub lesson: String,
}

/// The entries handed to a job: the first `limit` ranked candidates, in
/// order, each lesson labelled as legacy when its soul version differs from
/// the current one.
pub fn karma_entries(ranked: &Vec<RankedLesson>, limit: usize, current_soul_hash: &str) -> (r: Vec<KarmaEntry>)
    ensures
        r@.len() == if ranked@.len() < limit { ranked@.len() } else { limit as nat },
        forall|i: int| 0 <= i < r@.len() ==> (#[trigger] r@[i]).id@ == ranked@[i].id@
            && r@[i].lesson@ == labelled_lesson(ranked@[i].lesson@, opt_view(ranked@[i].soul_hash), current_soul_hash@),
{
    let mut out: Vec<KarmaEntry> = Vec::new();
    let mut i: usize = 0;
    while i < ranked.len() && i < limit
        invariant
            i <= ranked@.len(),
            i <= limit,
            out@.len() == i,
            forall|k: int| 0 <= k < i ==> (#[trigger] out@[k]).id@ == ranked@[k].id@
                && out@[k].lesson@ == labelled_lesson(ranked@[k].lesson@, opt_view(ranked@[k].soul_hash), current_soul_hash@),
        decreases ranked.len() - i,
    {
        let c = &ranked[i];
        let hash = match &c.soul_hash {
            Some(h) => Some(h.as_str()),
            None => None,
        };
        let lesson = label_lesson(c.lesson.as_str(), hash, current_soul_hash);
        out.push(KarmaEntry { id: copy_str(c.id.as_str()), lesson });
        i = i + 1;
    }
    out
}

/// The milestone, in days after publication, whose verdict is final and
/// becomes karma.
pub const FINAL_VERDICT_DAYS: i64 = 30;

/// Whether the verdict at `milestone_days` is the final one, whose lesson is
/// stored as karma.
pub fn is_final_verdict(milestone_days: i64) -> (r: bool)
    ensures
        r == (milestone_days == FINAL_VERDICT_DAYS),
{
    milestone_days == FINAL_VERDICT_DAYS
}

/// Storage tier of a lesson.
#[derive(Debug, Clone, Copy, PartialEq, Eq, Structural)]
pub enum KarmaTier {
    Hot,
    Warm,
    Cold,
}

/// Seconds in a day.
pub const DAY_SECS: u64 = 86400;

/// Applied within the last seven days (`age` is the time since the last
/// application; `None` when never applied).
pub open spec fn applied_within(age: Option<u64>, days: int) -> bool {
    match age {
        Some(a) => a < days * DAY_SECS,
        None => false,
    }
}

/// Not applied for more than `days` days, or never.
pub open spec fn unused_for(age: Option<u64>, days: int) -> bool {
    match age {
        Some(a) => a > days * DAY_SECS,
        None => true,
    }
}

/// One maintenance cycle on a lesson `(tier, archived)`, its three steps in
/// order: a warm, unarchived lesson applied three times or more and within
/// seven days turns hot; a hot one unused for thirty days cools to warm; a
/// warm one unused for ninety days goes cold and is archived.
pub open spec fn tier_cycle(tier: KarmaTier, archived: bool, apply_count: int, age: Option<u64>) -> (
    KarmaTier,
    bool,
) {
    let t1 = if tier == KarmaTier::Warm && apply_count >= 3 && applied_within(age, 7) && !archived {
        KarmaTier::Hot
    } else {
        tier
    };
    let t2 = if t1 == KarmaTier::Hot && unused_for(age, 30) {
        KarmaTier::Warm
    } else {
        t1
    };
    if t2 == KarmaTier::Warm && unused_for(age, 90) {
        (KarmaTier::Cold, true)
    } else {
        (t2, archived)
    }
}

/// The tier and archive flag of a lesson after a maintenance cycle.
pub fn maintain_tier(tier: KarmaTier, archived: bool, apply_count: i64, age_secs: Option<u64>) -> (r: (
    KarmaTier,
    bool,
))
    ensures
        r == tier_cycle(tier, archived, apply_count as int, age_secs),
{
    let within7 = match age_secs {
        Some(a) => a < 7 * DAY_SECS,
        None => false,
    };
    let unused30 = match age_secs {
        Some(a) => a > 30 * DAY_SECS,
        None => true,
    };
    let unused90 = match age_secs {
        Some(a) => a > 90 * DAY_SECS,
        None => true,
    };
    let t1 = if tier == KarmaTier::Warm && apply_count >= 3 && within7 && !archived {
        KarmaTier::Hot
    } else {
        tier
    };
    let t2 = if t1 == KarmaTier::Hot && unused30 {
        KarmaTier::Warm
    } else {
        t1
    };
    if t2 == KarmaTier::Warm && unused90 {
        (KarmaTier::Cold, true)
    } else {
        (t2, archived)
    }
}

/// The name a tier is stored under.
pub fn tier_name(tier: KarmaTier) -> (r: &'static str)
    ensures
        r@ == match tier {
            KarmaTier::Hot => "HOT"@,
            KarmaTier::Warm => "WARM"@,
            KarmaTier::Cold => "COLD"@,
        },
{
    match tier {
        KarmaTier::Hot => "HOT",
        KarmaTier::Warm => "WARM",
        KarmaTier::Cold => "COLD",
    }
}

/// Maintenance settles in one cycle: running it again at the same moment
/// changes nothing. And a lesson applied within the last seven days is
/// never archived by it, nor does a cold lesson ever come back.
pub proof fn law_tier_cycle_settles(tier: KarmaTier, archived: bool, apply_count: int, age: Option<u64>)
    ensures
        ({
            let (t, a) = tier_cycle(tier, archived, apply_count, age);
            tier_cycle(t, a, apply_count, age) == (t, a)
        }),
        applied_within(age, 7) ==> tier_cycle(tier, archived, apply_count, age).1 == archived,
        tier == KarmaTier::Cold ==> tier_cycle(tier, archived, apply_count, age) == (tier, archived),
{
}

/// Lessons as `- ` bullets, one per line.
pub open spec fn bullet_list(ls: Seq<Seq<char>>) -> Seq<char>
    decreases ls.len(),
{
    if ls.len() == 0 {
        Seq::empty()
    } else if ls.len() == 1 {
        "- "@ + ls[0]
    } else {
        bullet_list(ls.drop_last()) + "\n- "@ + ls.last()
    }
}

/// The views of some lessons.
pub open spec fn lesson_views(v: Seq<String>) -> Seq<Seq<char>> {
    v.map_values(|s: String| s@)
}

/// The request that crystallizes the raw lessons of `skill` into a few
/// lasting ones.
pub open spec fn crystallize_prompt_text(skill: Seq<char>, lessons: Seq<Seq<char>>) -> Seq<char> {
    "以下の技能「"@ + skill + "」に関する生の教訓を抽象化し、3〜5つの本質的な知恵に結晶化してください。\n\n教訓リスト:\n"@
        + bullet_list(lessons) + "\n\n出力形式: 短い箇条書きのみ。余計な説明は不要。日本語で出力せよ。"@
}

/// The soul version recorded on crystallized karma.
pub fn crystallized_soul_hash() -> (r: &'static str)
    ensures
        r@ == "v1_crystallized"@,
{
    "v1_crystallized"
}

pub fn crystallize_prompt(skill: &str, lessons: &Vec<String>) -> (r: String)
    ensures
        r@ == crystallize_prompt_text(skill@, lesson_views(lessons@)),
{
    let mut list = String::new();
    let ghost lv = lesson_views(lessons@);
    let mut i: usize = 0;
    proof {
        assert(lv.take(0) =~= Seq::<Seq<char>>::empty());
    }
    while i < lessons.len()
        invariant
            i <= lessons@.len(),
            lv == lesson_views(lessons@),
            list@ == bullet_list(lv.take(i as int)),
        decreases lessons.len() - i,
    {
        if i == 0 {
            append_str(&mut list, "- ");
        } else {
            append_str(&mut list, "\n- ");
        }
        append_str(&mut list, lessons[i].as_str());
        proof {
            let t = lv.take(i + 1);
            assert(t.drop_last() =~= lv.take(i as int));
            if i == 0 {
                assert(list@ =~= "- "@ + t[0]);
            }
        }
        i = i + 1;
    }
    proof {
        assert(lv.take(lv.len() as int) =~= lv);
    }
    let mut out = copy_str("以下の技能「");
    append_str(&mut out, skill);
    append_str(&mut out, "」に関する生の教訓を抽象化し、3〜5つの本質的な知恵に結晶化してください。\n\n教訓リスト:\n");
    append_str(&mut out, list.as_str());
    append_str(&mut out, "\n\n出力形式: 短い箇条書きのみ。余計な説明は不要。日本語で出力せよ。");
    out
}

} // verus!
