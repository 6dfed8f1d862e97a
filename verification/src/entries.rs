use vstd::prelude::*;
use crate::formatting::{relative_time, recency_label, elapsed_secs};
use crate::text::{decimal, push_char, push_decimal, chars_of, same_text, lowercase, to_lowercase, contains_text, text_contains};
use crate::sorting::lemma_filter_push;
use crate::textorder::{text_le, text_at_or_before, lemma_text_le_reflexive, lemma_text_le_transitive, lemma_text_le_total, lemma_text_le_antisymmetric};
use crate::sorting::{is_total_preorder, stably_sorted, sorted_by, lemma_insert_stable};

verus! {

/// One row in the model picker.
#[derive(Debug)]
pub struct ModelEntry {
    pub id: String,
    pub provider: String,
    pub is_current: bool,
}

/// One row in the provider picker.
#[derive(Debug)]
pub struct ProviderEntry {
    pub name: String,
    pub reachable: bool,
    pub active: bool,
    pub is_external: bool,
}

/// One row in the session picker.
#[derive(Debug)]
pub struct SessionEntry {
    pub path: String,
    pub mtime_secs: u64,
    pub entry_count: u64,
}

/// The label of a model row: provider and id, with a check mark before the
/// current model.
pub open spec fn model_label(id: Seq<char>, provider: Seq<char>, is_current: bool) -> Seq<char> {
    (if is_current { "\u{2713} "@ } else { Seq::empty() }) + provider + " \u{00b7} "@ + id
}

/// The label of a model row.
pub fn model_row_label(entry: &ModelEntry) -> (r: String)
    ensures
        r@ == model_label(entry.id@, entry.provider@, entry.is_current),
{
    let mut s = if entry.is_current { String::from_str("\u{2713} ") } else { String::new() };
    s.append(entry.provider.as_str());
    s.append(" \u{00b7} ");
    s.append(entry.id.as_str());
    s
}

/// The flags shown after a provider's name.
pub open spec fn provider_flags(active: bool, is_external: bool) -> Seq<char> {
    if active && is_external {
        " [active, external]"@
    } else if active {
        " [active]"@
    } else if is_external {
        " [external]"@
    } else {
        Seq::empty()
    }
}

/// The label of a provider row: name, reachability mark and flags.
pub open spec fn provider_label(name: Seq<char>, reachable: bool, active: bool, is_external: bool) -> Seq<char> {
    name + " "@ + (if reachable { "\u{2713}"@ } else { "\u{2717}"@ }) + provider_flags(active, is_external)
}

/// The label of a provider row.
pub fn provider_row_label(entry: &ProviderEntry) -> (r: String)
    ensures
        r@ == provider_label(entry.name@, entry.reachable, entry.active, entry.is_external),
{
    let mut s = entry.name.clone();
    s.append(" ");
    s.append(if entry.reachable { "\u{2713}" } else { "\u{2717}" });
    let flags: &str = if entry.active && entry.is_external {
        " [active, external]"
    } else if entry.active {
        " [active]"
    } else if entry.is_external {
        " [external]"
    } else {
        ""
    };
    s.append(flags);
    proof {
        if !entry.active && !entry.is_external {
            reveal_strlit("");
        }
    }
    s
}

/// `t` padded with spaces on the right to at least `width` characters, as
/// `{:<width}` formats it.
pub open spec fn padded(t: Seq<char>, width: nat) -> Seq<char> {
    if t.len() >= width {
        t
    } else {
        t + Seq::new((width - t.len()) as nat, |i: int| ' ')
    }
}

/// Appends `t` padded with spaces to at least `width` characters.
fn push_padded(s: &mut String, t: &str, width: usize)
    ensures
        final(s)@ == old(s)@ + padded(t@, width as nat),
{
    let n = chars_of(t).len();
    s.append(t);
    let ghost base = s@;
    let mut k = n;
    while k < width
        invariant
            n == t@.len(),
            base == old(s)@ + t@,
            n <= width ==> s@ == base + Seq::new((k - n) as nat, |i: int| ' '),
            n > width ==> s@ == base && k == n,
            n <= k,
            n <= width ==> k <= width,
        decreases width - k,
    {
        push_char(s, ' ');
        k = k + 1;
        assert(s@ =~= base + Seq::new((k - n) as nat, |i: int| ' '));
    }
    proof {
        if n >= width {
            assert(s@ =~= base);
        } else {
            assert(k == width);
        }
    }
}

/// The session row for an entry whose recency label is `recency`: columns
/// of 11 and 12 characters, then the path.
pub open spec fn session_row(recency: Seq<char>, entry_count: u64, path: Seq<char>) -> Seq<char> {
    padded(recency, 11) + padded(decimal(entry_count as nat) + " entries"@, 12) + path
}

/// The label of a session row, with the recency measured against the wall
/// clock.
pub fn session_row_label(entry: &SessionEntry) -> (r: String)
    ensures
        exists|now: u64| r@ == session_row(
            recency_label(#[trigger] elapsed_secs(now as nat, entry.mtime_secs as nat)),
            entry.entry_count,
            entry.path@,
        ),
{
    let recency = relative_time(entry.mtime_secs);
    let mut count = String::new();
    push_decimal(&mut count, entry.entry_count);
    count.append(" entries");
    let mut s = String::new();
    push_padded(&mut s, recency.as_str(), 11);
    push_padded(&mut s, count.as_str(), 12);
    s.append(entry.path.as_str());
    assert(count@ == Seq::<char>::empty() + decimal(entry.entry_count as nat) + " entries"@);
    assert(Seq::<char>::empty() + decimal(entry.entry_count as nat) =~= decimal(entry.entry_count as nat));
    s
}

/// A model the agent offers: its id and provider.
#[derive(Debug)]
pub struct ModelChoice {
    pub id: String,
    pub provider: String,
}

/// The abstract value of a [`ModelChoice`].
pub struct ModelView {
    pub id: Seq<char>,
    pub provider: Seq<char>,
}

impl View for ModelChoice {
    type V = ModelView;

    open spec fn view(&self) -> ModelView {
        ModelView { id: self.id@, provider: self.provider@ }
    }
}

/// The abstract value of a [`SessionEntry`].
pub struct SessionView {
    pub path: Seq<char>,
    pub mtime_secs: u64,
    pub entry_count: u64,
}

impl View for SessionEntry {
    type V = SessionView;

    open spec fn view(&self) -> SessionView {
        SessionView { path: self.path@, mtime_secs: self.mtime_secs, entry_count: self.entry_count }
    }
}

/// Models clustered by provider, then ordered by id.
pub open spec fn model_order() -> spec_fn(ModelView, ModelView) -> bool {
    |a: ModelView, b: ModelView|
        if a.provider == b.provider { text_le(a.id, b.id) } else { text_le(a.provider, b.provider) }
}

/// Sessions newest first, by modification time.
pub open spec fn newest_first() -> spec_fn(SessionView, SessionView) -> bool {
    |a: SessionView, b: SessionView| a.mtime_secs >= b.mtime_secs
}

/// The abstract values of a list of models.
pub open spec fn model_views(v: Seq<ModelChoice>) -> Seq<ModelView> {
    v.map_values(|m: ModelChoice| m@)
}

/// The abstract values of a list of sessions.
pub open spec fn session_views(v: Seq<SessionEntry>) -> Seq<SessionView> {
    v.map_values(|e: SessionEntry| e@)
}

/// The model order is a total preorder.
pub proof fn lemma_model_order_preorder()
    ensures
        is_total_preorder(model_order()),
{
    let le = model_order();
    assert forall|a: ModelView| #[trigger] le(a, a) by {
        lemma_text_le_reflexive(a.id);
    }
    assert forall|a: ModelView, b: ModelView, c: ModelView| #[trigger] le(a, b) && #[trigger] le(b, c) implies le(a, c) by {
        if a.provider == b.provider && b.provider == c.provider {
            lemma_text_le_transitive(a.id, b.id, c.id);
        } else if a.provider == b.provider {
        } else if b.provider == c.provider {
        } else if a.provider == c.provider {
            lemma_text_le_antisymmetric(a.provider, b.provider);
        } else {
            lemma_text_le_transitive(a.provider, b.provider, c.provider);
        }
    }
    assert forall|a: ModelView, b: ModelView| #![trigger le(a, b)] #![trigger le(b, a)] le(a, b) || le(b, a) by {
        lemma_text_le_total(a.id, b.id);
        lemma_text_le_total(a.provider, b.provider);
    }
}

/// The newest-first order is a total preorder.
pub proof fn lemma_newest_first_preorder()
    ensures
        is_total_preorder(newest_first()),
{
}

/// Whether model `a` sorts at or before model `b`.
fn model_at_or_before(a: &ModelChoice, b: &ModelChoice) -> (r: bool)
    ensures
        r == (model_order())(a@, b@),
{
    if same_text(a.provider.as_str(), b.provider.as_str()) {
        text_at_or_before(a.id.as_str(), b.id.as_str())
    } else {
        text_at_or_before(a.provider.as_str(), b.provider.as_str())
    }
}

/// Sorts models by provider, then id, keeping equal entries in their order.
pub fn sort_models(v: Vec<ModelChoice>) -> (r: Vec<ModelChoice>)
    ensures
        stably_sorted(model_views(r@), model_views(v@), model_order()),
{
    proof { lemma_model_order_preorder(); }
    let ghost le = model_order();
    let ghost input = v@;
    let mut out: Vec<ModelChoice> = Vec::new();
    assert(model_views(out@) =~= Seq::<ModelView>::empty());
    assert(model_views(input.take(0)) =~= Seq::<ModelView>::empty());
    for x in it: v
        invariant
            it.seq() == input,
            is_total_preorder(le),
            le == model_order(),
            stably_sorted(model_views(out@), model_views(input.take(it.index() as int)), le),
    {
        let ghost outv = model_views(out@);
        let mut p: usize = 0;
        while p < out.len() && model_at_or_before(&out[p], &x)
            invariant
                p <= out@.len(),
                outv == model_views(out@),
                is_total_preorder(le),
                le == model_order(),
                forall|j: int| 0 <= j < p ==> le(#[trigger] outv[j], x@),
            decreases out@.len() - p,
        {
            p = p + 1;
        }
        proof {
            assert forall|j: int| p <= j < outv.len() implies !le(#[trigger] outv[j], x@) by {
                assert(!le(outv[p as int], x@));
                if j > p && le(outv[j], x@) {
                    assert(le(outv[p as int], outv[j]));
                }
            }
            lemma_insert_stable(outv, model_views(input.take(it.index() as int)), x@, p as int, le);
            assert(model_views(input.take(it.index() as int)).push(x@) =~= model_views(input.take(it.index() + 1)));
        }
        out.insert(p, x);
        assert(model_views(out@) =~= outv.insert(p as int, x@));
    }
    assert(input.take(input.len() as int) =~= input);
    out
}

/// Sorts sessions newest first, keeping sessions of the same time in their
/// order.
pub fn sort_sessions_newest_first(v: Vec<SessionEntry>) -> (r: Vec<SessionEntry>)
    ensures
        stably_sorted(session_views(r@), session_views(v@), newest_first()),
{
    let ghost le = newest_first();
    let ghost input = v@;
    let mut out: Vec<SessionEntry> = Vec::new();
    assert(session_views(out@) =~= Seq::<SessionView>::empty());
    assert(session_views(input.take(0)) =~= Seq::<SessionView>::empty());
    for x in it: v
        invariant
            it.seq() == input,
            le == newest_first(),
            stably_sorted(session_views(out@), session_views(input.take(it.index() as int)), le),
    {
        let ghost outv = session_views(out@);
        let mut p: usize = 0;
        while p < out.len() && out[p].mtime_secs >= x.mtime_secs
            invariant
                p <= out@.len(),
                outv == session_views(out@),
                le == newest_first(),
                forall|j: int| 0 <= j < p ==> le(#[trigger] outv[j], x@),
            decreases out@.len() - p,
        {
            p = p + 1;
        }
        proof {
            lemma_newest_first_preorder();
            assert forall|j: int| p <= j < outv.len() implies !le(#[trigger] outv[j], x@) by {
                assert(!le(outv[p as int], x@));
                if j > p && le(outv[j], x@) {
                    assert(le(outv[p as int], outv[j]));
                }
            }
            lemma_insert_stable(outv, session_views(input.take(it.index() as int)), x@, p as int, le);
            assert(session_views(input.take(it.index() as int)).push(x@) =~= session_views(input.take(it.index() + 1)));
        }
        out.insert(p, x);
        assert(session_views(out@) =~= outv.insert(p as int, x@));
    }
    assert(input.take(input.len() as int) =~= input);
    out
}

impl ModelChoice {
    /// A copy of the entry.
    pub fn duplicate(&self) -> (r: ModelChoice)
        ensures
            r@ == self@,
    {
        ModelChoice { id: self.id.clone(), provider: self.provider.clone() }
    }
}

/// A model matches a lowercase filter when the filter occurs in its id or
/// provider, both lowercased.
pub open spec fn model_matches(m: ModelView, filter: Seq<char>) -> bool {
    contains_text(lowercase(m.id), filter) || contains_text(lowercase(m.provider), filter)
}

/// The models the picker shows for `filter_text`: all of them when the
/// filter is empty, else those matching it lowercased, in order.
pub open spec fn filtered_model_views(models: Seq<ModelView>, filter_text: Seq<char>) -> Seq<ModelView> {
    if filter_text.len() == 0 {
        models
    } else {
        let f = lowercase(filter_text);
        models.filter(|m: ModelView| model_matches(m, f))
    }
}

/// The models the picker shows for `filter_text` (case-insensitive match
/// on id or provider).
pub fn filter_models(models: &Vec<ModelChoice>, filter_text: &str) -> (r: Vec<ModelChoice>)
    ensures
        model_views(r@) == filtered_model_views(model_views(models@), filter_text@),
{
    let f = to_lowercase(filter_text);
    let all = f.as_str().is_empty();
    let ghost fv = f@;
    let ghost pred = |m: ModelView| model_matches(m, fv);
    let mut out: Vec<ModelChoice> = Vec::new();
    let n = models.len();
    assert(model_views(out@) =~= model_views(models@.take(0)).filter(pred)) by {
        reveal(Seq::filter);
        assert(model_views(models@.take(0)) =~= Seq::<ModelView>::empty());
    }
    for i in 0..n
        invariant
            n == models@.len(),
            fv == lowercase(filter_text@),
            f@ == fv,
            all == (fv.len() == 0),
            pred == (|m: ModelView| model_matches(m, fv)),
            all ==> model_views(out@) == model_views(models@.take(i as int)),
            !all ==> model_views(out@) == model_views(models@.take(i as int)).filter(pred),
    {
        let m = &models[i];
        let keep = if all {
            true
        } else {
            let id = to_lowercase(m.id.as_str());
            let provider = to_lowercase(m.provider.as_str());
            text_contains(id.as_str(), f.as_str()) || text_contains(provider.as_str(), f.as_str())
        };
        proof {
            assert(model_views(models@.take(i + 1)) =~= model_views(models@.take(i as int)).push(m@));
            lemma_filter_push(model_views(models@.take(i as int)), m@, pred);
            if !all {
                assert(keep == pred(m@));
            }
        }
        let ghost before = model_views(out@);
        if keep {
            out.push(m.duplicate());
            assert(model_views(out@) =~= before.push(m@));
        }
    }
    assert(models@.take(n as int) =~= models@);
    out
}

/// The abstract value of a [`ProviderEntry`].
pub struct ProviderView {
    pub name: Seq<char>,
    pub reachable: bool,
    pub active: bool,
    pub is_external: bool,
}

impl View for ProviderEntry {
    type V = ProviderView;

    open spec fn view(&self) -> ProviderView {
        ProviderView { name: self.name@, reachable: self.reachable, active: self.active, is_external: self.is_external }
    }
}

/// The abstract value of a [`ModelEntry`].
pub struct ModelEntryView {
    pub id: Seq<char>,
    pub provider: Seq<char>,
    pub is_current: bool,
}

impl View for ModelEntry {
    type V = ModelEntryView;

    open spec fn view(&self) -> ModelEntryView {
        ModelEntryView { id: self.id@, provider: self.provider@, is_current: self.is_current }
    }
}

impl SessionEntry {
    /// A copy of the entry.
    pub fn duplicate(&self) -> (r: SessionEntry)
        ensures
            r@ == self@,
    {
        SessionEntry { path: self.path.clone(), mtime_secs: self.mtime_secs, entry_count: self.entry_count }
    }
}

impl ProviderEntry {
    /// A copy of the entry.
    pub fn duplicate(&self) -> (r: ProviderEntry)
        ensures
            r@ == self@,
    {
        ProviderEntry { name: self.name.clone(), reachable: self.reachable, active: self.active, is_external: self.is_external }
    }
}

impl ModelEntry {
    /// A copy of the entry.
    pub fn duplicate(&self) -> (r: ModelEntry)
        ensures
            r@ == self@,
    {
        ModelEntry { id: self.id.clone(), provider: self.provider.clone(), is_current: self.is_current }
    }
}

} // verus!
