//! What a history of sessions tells: how long and when each title was played.

use crate::clock::{longest_span, Duration, SystemTime};
use crate::history::{sessions, EndPrecision, HistoryEntry, SessionModel};
use crate::text::{cat3, decimal, decimal_text, Text};
use crate::textmap::{Distinct, TextMap};
use vstd::prelude::*;
use vstd::seq_lib::lemma_fold_left_permutation;
use vstd::string::*;

verus! {

broadcast use crate::history::group_sessions;

/// How long a title was played, and whether that is only roughly known.
#[derive(Clone, Copy, Debug, PartialEq, Eq, Structural)]
pub struct Playtime {
    pub duration: Duration,
    pub approximate: bool,
}

/// The model of a playtime: nanoseconds, and whether they are a rough figure.
pub ghost struct PlaytimeModel {
    pub duration: nat,
    pub approximate: bool,
}

impl View for Playtime {
    type V = PlaytimeModel;

    open spec fn view(&self) -> PlaytimeModel {
        PlaytimeModel { duration: self.duration@, approximate: self.approximate }
    }
}

impl Distinct for Playtime {
    fn same_as(&self, other: &Self) -> bool {
        self.duration.same(other.duration) && self.approximate == other.approximate
    }
}

impl Distinct for SystemTime {
    fn same_as(&self, other: &Self) -> bool {
        self.same(*other)
    }
}

/// Whether a session of a title has both its stamps.
pub open spec fn counts(session: SessionModel, item_id: Text) -> bool {
    session.item_id == item_id && session.started_at is Some && session.ended_at is Some
}

/// What a session adds to a title's playtime. A clock that went back adds
/// nothing.
pub open spec fn span_of(session: SessionModel, item_id: Text) -> nat {
    if counts(session, item_id) && session.ended_at->0.at >= session.started_at->0 {
        (session.ended_at->0.at - session.started_at->0) as nat
    } else {
        0
    }
}

/// The sum of what the sessions add to a title's playtime.
pub open spec fn total_span(history: Seq<SessionModel>, item_id: Text) -> nat
    decreases history.len(),
{
    if history.len() == 0 {
        0
    } else {
        total_span(history.drop_last(), item_id) + span_of(history.last(), item_id)
    }
}

/// Whether any session of the history counts for a title.
pub open spec fn ever_counts(history: Seq<SessionModel>, item_id: Text) -> bool {
    exists|i: int| 0 <= i < history.len() && counts(#[trigger] history[i], item_id)
}

/// Whether a session that counts for a title has an end that is only roughly
/// known.
pub open spec fn ever_approximate(history: Seq<SessionModel>, item_id: Text) -> bool {
    exists|i: int|
        0 <= i < history.len() && counts(#[trigger] history[i], item_id)
            && history[i].ended_at->0.precision == EndPrecision::Approximate
}

/// The playtime of a title after a history.
pub open spec fn playtime_of(history: Seq<SessionModel>, item_id: Text) -> PlaytimeModel {
    let total = total_span(history, item_id);
    PlaytimeModel {
        duration: if total <= longest_span() {
            total
        } else {
            longest_span()
        },
        approximate: ever_approximate(history, item_id),
    }
}

/// The playtimes after a history: one for each title that a session counts for.
pub open spec fn playtimes(history: Seq<SessionModel>) -> Map<Text, PlaytimeModel> {
    Map::new(
        |item_id: Text| ever_counts(history, item_id),
        |item_id: Text| playtime_of(history, item_id),
    )
}

proof fn lemma_one_more(history: Seq<SessionModel>, item_id: Text)
    requires
        history.len() > 0,
    ensures
        ever_counts(history, item_id) == (ever_counts(history.drop_last(), item_id) || counts(
            history.last(),
            item_id,
        )),
        ever_approximate(history, item_id) == (ever_approximate(history.drop_last(), item_id) || (
        counts(history.last(), item_id) && history.last().ended_at->0.precision
            == EndPrecision::Approximate)),
{
    let shorter = history.drop_last();
    if ever_counts(shorter, item_id) {
        let i = choose|i: int| 0 <= i < shorter.len() && counts(#[trigger] shorter[i], item_id);
        assert(counts(history[i], item_id));
    }
    if ever_counts(history, item_id) && !counts(history.last(), item_id) {
        let i = choose|i: int| 0 <= i < history.len() && counts(#[trigger] history[i], item_id);
        assert(counts(shorter[i], item_id));
    }
    if ever_approximate(shorter, item_id) {
        let i = choose|i: int|
            0 <= i < shorter.len() && counts(#[trigger] shorter[i], item_id)
                && shorter[i].ended_at->0.precision == EndPrecision::Approximate;
        assert(counts(history[i], item_id));
    }
    if ever_approximate(history, item_id) && !(counts(history.last(), item_id)
        && history.last().ended_at->0.precision == EndPrecision::Approximate) {
        let i = choose|i: int|
            0 <= i < history.len() && counts(#[trigger] history[i], item_id)
                && history[i].ended_at->0.precision == EndPrecision::Approximate;
        assert(counts(shorter[i], item_id));
    }
    if counts(history.last(), item_id) {
        assert(counts(history[history.len() - 1], item_id));
    }
}

proof fn lemma_no_play_no_span(history: Seq<SessionModel>, item_id: Text)
    requires
        !ever_counts(history, item_id),
    ensures
        total_span(history, item_id) == 0,
        !ever_approximate(history, item_id),
    decreases history.len(),
{
    if history.len() > 0 {
        lemma_one_more(history, item_id);
        lemma_no_play_no_span(history.drop_last(), item_id);
    }
}

/// Whether a session has both its stamps.
pub open spec fn stamped(session: SessionModel) -> bool {
    session.started_at is Some && session.ended_at is Some
}

/// The sessions of a history that have both their stamps.
pub open spec fn stamped_sessions(history: Seq<SessionModel>) -> Seq<SessionModel> {
    history.filter(|session: SessionModel| stamped(session))
}

proof fn lemma_total_is_a_fold(history: Seq<SessionModel>, item_id: Text)
    ensures
        total_span(history, item_id) == history.fold_left(
            0nat,
            |sum: nat, session: SessionModel| sum + span_of(session, item_id),
        ),
    decreases history.len(),
{
    if history.len() > 0 {
        lemma_total_is_a_fold(history.drop_last(), item_id);
    }
}

proof fn lemma_same_sessions(left: Seq<SessionModel>, right: Seq<SessionModel>, item_id: Text)
    requires
        left.to_multiset() == right.to_multiset(),
    ensures
        ever_counts(left, item_id) ==> ever_counts(right, item_id),
        ever_approximate(left, item_id) ==> ever_approximate(right, item_id),
{
    left.to_multiset_ensures();
    right.to_multiset_ensures();
    assert forall|i: int| 0 <= i < left.len() implies right.contains(#[trigger] left[i]) by {
        assert(left.contains(left[i]));
        assert(left.to_multiset().count(left[i]) > 0);
    }
    if ever_counts(left, item_id) {
        let i = choose|i: int| 0 <= i < left.len() && counts(#[trigger] left[i], item_id);
        let j = choose|j: int| 0 <= j < right.len() && right[j] == left[i];
        assert(counts(right[j], item_id));
    }
    if ever_approximate(left, item_id) {
        let i = choose|i: int|
            0 <= i < left.len() && counts(#[trigger] left[i], item_id)
                && left[i].ended_at->0.precision == EndPrecision::Approximate;
        let j = choose|j: int| 0 <= j < right.len() && right[j] == left[i];
        assert(counts(right[j], item_id));
    }
}

/// The order in which sessions are told of makes no difference to how long
/// titles were played.
pub proof fn law_order_of_sessions_does_not_matter(
    history: Seq<SessionModel>,
    reordered: Seq<SessionModel>,
)
    requires
        history.to_multiset() == reordered.to_multiset(),
    ensures
        playtimes(history) == playtimes(reordered),
{
    assert forall|item_id: Text| ever_counts(history, item_id) == ever_counts(reordered, item_id)
        && playtime_of(history, item_id) == playtime_of(reordered, item_id) by {
        lemma_same_sessions(history, reordered, item_id);
        lemma_same_sessions(reordered, history, item_id);
        let add_span = |sum: nat, session: SessionModel| sum + span_of(session, item_id);
        lemma_total_is_a_fold(history, item_id);
        lemma_total_is_a_fold(reordered, item_id);
        lemma_fold_left_permutation(history, reordered, add_span, 0nat);
    }
    assert(playtimes(history) =~= playtimes(reordered));
}

proof fn lemma_only_stamped_count(history: Seq<SessionModel>, item_id: Text)
    ensures
        ever_counts(stamped_sessions(history), item_id) == ever_counts(history, item_id),
        ever_approximate(stamped_sessions(history), item_id) == ever_approximate(history, item_id),
        total_span(stamped_sessions(history), item_id) == total_span(history, item_id),
    decreases history.len(),
{
    reveal(Seq::filter);
    if history.len() > 0 {
        let shorter = history.drop_last();
        lemma_only_stamped_count(shorter, item_id);
        lemma_one_more(history, item_id);
        if stamped(history.last()) {
            let kept = stamped_sessions(history);
            assert(kept.drop_last() =~= stamped_sessions(shorter));
            assert(kept.last() == history.last());
            lemma_one_more(kept, item_id);
        }
    }
}

/// Two histories that tell of the same sessions with both stamps, in the same
/// order, tell of the same playtimes: sessions that lack a stamp may stand
/// anywhere among them, in any number.
pub proof fn law_only_stamped_sessions_matter(
    history: Seq<SessionModel>,
    other: Seq<SessionModel>,
)
    requires
        stamped_sessions(history) == stamped_sessions(other),
    ensures
        playtimes(history) == playtimes(other),
{
    assert forall|item_id: Text| ever_counts(history, item_id) == ever_counts(other, item_id)
        && playtime_of(history, item_id) == playtime_of(other, item_id) by {
        lemma_only_stamped_count(history, item_id);
        lemma_only_stamped_count(other, item_id);
    }
    assert(playtimes(history) =~= playtimes(other));
}

/// A session that lacks a stamp changes no playtime, wherever it is put into a
/// history.
pub proof fn law_inserting_an_unstamped_session_changes_nothing(
    history: Seq<SessionModel>,
    place: int,
    session: SessionModel,
)
    requires
        0 <= place <= history.len(),
        !stamped(session),
    ensures
        stamped_sessions(history.insert(place, session)) == stamped_sessions(history),
        playtimes(history.insert(place, session)) == playtimes(history),
    decreases history.len(),
{
    reveal(Seq::filter);
    let longer = history.insert(place, session);
    if place == history.len() {
        assert(longer.drop_last() =~= history);
    } else {
        let shorter = history.drop_last();
        law_inserting_an_unstamped_session_changes_nothing(shorter, place, session);
        assert(longer.drop_last() =~= shorter.insert(place, session));
        assert(longer.last() == history.last());
    }
    law_only_stamped_sessions_matter(longer, history);
}

/// Sums up, title by title, how long the sessions of a history lasted. Sessions
/// without both stamps do not count; a clock that went back counts as no time.
#[must_use]
pub fn derive_playtime(entries: &[HistoryEntry]) -> (totals: TextMap<Playtime>)
    ensures
        totals@ == playtimes(sessions(entries@)),
{
    let mut totals: TextMap<Playtime> = TextMap::new();
    let mut next: usize = 0;
    let ghost history = sessions(entries@);
    proof {
        assert(history.take(0) =~= Seq::empty());
        assert(playtimes(history.take(0)) =~= Map::empty());
    }
    while next < entries.len()
        invariant
            next <= entries@.len(),
            history == sessions(entries@),
                totals@ == playtimes(history.take(next as int)),
        decreases entries@.len() - next,
    {
        let entry = &entries[next];
        let ghost before = history.take(next as int);
        let ghost after = history.take(next + 1);
        proof {
            assert(after.drop_last() =~= before);
            assert(after.last() == entry@);
            assert forall|id: Text| ever_counts(after, id) == (ever_counts(before, id)
                || counts(entry@, id)) by {
                lemma_one_more(after, id);
            }
            assert forall|id: Text| !counts(entry@, id) implies playtime_of(after, id)
                == playtime_of(before, id) by {
                lemma_one_more(after, id);
            }
        }
        match (entry.started_at, entry.ended_at) {
            (Some(started_at), Some(ended_at)) => {
                let id = entry.item_id.as_str();
                let total = match totals.get(id) {
                    Some(total) => total,
                    None => Playtime { duration: Duration::zero(), approximate: false },
                };
                let span = match ended_at.at.duration_since(started_at) {
                    Some(span) => span,
                    None => Duration::zero(),
                };
                let approximate = match ended_at.precision {
                    EndPrecision::Approximate => true,
                    EndPrecision::Observed => total.approximate,
                };
                let total = Playtime { duration: total.duration.saturating_add(span), approximate };
                proof {
                    if !ever_counts(before, id@) {
                        lemma_no_play_no_span(before, id@);
                    }
                    lemma_one_more(after, id@);
                    assert(total@ == playtime_of(after, id@));
                }
                totals.set(id, total);
                proof {
                    assert(totals@ =~= playtimes(after));
                }
            },
            _ => {
                proof {
                    assert(totals@ =~= playtimes(after));
                }
            },
        }
        next += 1;
    }
    proof {
        assert(history.take(history.len() as int) =~= history);
    }
    totals
}

/// A playtime as it is written: whole minutes, with hours from the first one
/// on, and a tilde in front of a rough figure.
pub open spec fn playtime_text(playtime: PlaytimeModel) -> Text {
    let lead = if playtime.approximate {
        "Played ~"@
    } else {
        "Played "@
    };
    let minutes = playtime.duration / 1_000_000_000 / 60;
    if minutes == 0 {
        lead + "<1m"@
    } else if minutes < 60 {
        lead + decimal_text(minutes) + "m"@
    } else {
        lead + decimal_text(minutes / 60) + "h "@ + decimal_text(minutes % 60) + "m"@
    }
}

/// Writes a playtime.
#[must_use]
pub fn format_playtime(playtime: Playtime) -> (text: String)
    ensures
        text@ == playtime_text(playtime@),
{
    let lead = if playtime.approximate {
        "Played ~"
    } else {
        "Played "
    };
    let minutes: u64 = playtime.duration.as_secs() / 60;
    if minutes == 0 {
        return lead.to_owned().concat("<1m");
    }
    let hours: u64 = minutes / 60;
    if hours == 0 {
        cat3(lead, decimal(minutes).as_str(), "m")
    } else {
        cat3(lead, decimal(hours).as_str(), "h ").concat(decimal(minutes % 60).as_str()).concat(
            "m",
        )
    }
}

/// Sessions without both stamps never give a title a playtime.
pub proof fn law_unstamped_sessions_are_absent(history: Seq<SessionModel>, item_id: Text)
    requires
        forall|i: int|
            0 <= i < history.len() && (#[trigger] history[i]).item_id == item_id
                ==> history[i].started_at is None || history[i].ended_at is None,
    ensures
        !playtimes(history).contains_key(item_id),
{
}

/// A session whose clock went back makes the title known and adds no time.
pub proof fn law_backwards_clock_adds_nothing(history: Seq<SessionModel>, session: SessionModel)
    requires
        counts(session, session.item_id),
        session.ended_at->0.at < session.started_at->0,
    ensures
        playtimes(history.push(session)).contains_key(session.item_id),
        playtimes(history.push(session))[session.item_id].duration == playtime_of(
            history,
            session.item_id,
        ).duration,
{
    let longer = history.push(session);
    assert(longer.drop_last() =~= history);
    lemma_one_more(longer, session.item_id);
}

/// One more session never makes a playtime shorter, nor a rough figure exact.
pub proof fn law_playtime_only_grows(
    history: Seq<SessionModel>,
    session: SessionModel,
    item_id: Text,
)
    requires
        playtimes(history).contains_key(item_id),
    ensures
        playtimes(history.push(session)).contains_key(item_id),
        playtimes(history)[item_id].duration <= playtimes(
            history.push(session),
        )[item_id].duration,
        playtimes(history)[item_id].approximate ==> playtimes(
            history.push(session),
        )[item_id].approximate,
{
    let longer = history.push(session);
    assert(longer.drop_last() =~= history);
    lemma_one_more(longer, item_id);
}

/// The last use of a session: its end, or its start where the end is missing.
pub open spec fn use_of(session: SessionModel) -> Option<int> {
    match session.ended_at {
        Some(end) => Some(end.at),
        None => session.started_at,
    }
}

/// The later of two points that may be missing.
pub open spec fn later(left: Option<int>, right: Option<int>) -> Option<int> {
    match (left, right) {
        (Some(left), Some(right)) => Some(
            if left < right {
                right
            } else {
                left
            },
        ),
        (Some(left), None) => Some(left),
        (None, right) => right,
    }
}

/// The latest use of what was launched under an id.
pub open spec fn latest_use(history: Seq<SessionModel>, app_id: Text) -> Option<int>
    decreases history.len(),
{
    if history.len() == 0 {
        None
    } else {
        later(
            latest_use(history.drop_last(), app_id),
            if history.last().item_id == app_id {
                use_of(history.last())
            } else {
                None
            },
        )
    }
}

/// The latest use of what was launched under an id.
pub fn find_latest_use(entries: &[HistoryEntry], app_id: &str) -> (latest: Option<SystemTime>)
    ensures
        match latest {
            Some(time) => latest_use(sessions(entries@), app_id@) == Some(time@),
            None => latest_use(sessions(entries@), app_id@) is None,
        },
{
    let mut latest: Option<SystemTime> = None;
    let mut next: usize = 0;
    let ghost history = sessions(entries@);
    proof {
        assert(history.take(0) =~= Seq::empty());
    }
    while next < entries.len()
        invariant
            next <= entries@.len(),
            history == sessions(entries@),
            match latest {
                Some(time) => latest_use(history.take(next as int), app_id@) == Some(time@),
                None => latest_use(history.take(next as int), app_id@) is None,
            },
        decreases entries@.len() - next,
    {
        let entry = &entries[next];
        proof {
            assert(history.take(next + 1).drop_last() =~= history.take(next as int));
            assert(history.take(next + 1).last() == entry@);
        }
        if crate::text::same_text(entry.item_id.as_str(), app_id) {
            let used_at = match entry.ended_at {
                Some(end) => Some(end.at),
                None => entry.started_at,
            };
            latest = later_time(latest, used_at);
        }
        next += 1;
    }
    proof {
        assert(history.take(history.len() as int) =~= history);
    }
    latest
}

/// The model of a point that may be missing.
pub open spec fn moment(time: Option<SystemTime>) -> Option<int> {
    match time {
        Some(time) => Some(time@),
        None => None,
    }
}

/// The later of two points that may be missing.
pub fn later_time(left: Option<SystemTime>, right: Option<SystemTime>) -> (latest: Option<
    SystemTime,
>)
    ensures
        moment(latest) == later(moment(left), moment(right)),
{
    match (left, right) {
        (Some(left), Some(right)) => if left.before(right) {
            Some(right)
        } else {
            Some(left)
        },
        (Some(left), None) => Some(left),
        (None, right) => right,
    }
}

} // verus!
