//! The dashboard's channel pages: which of a guild's channels may be added
//! to the managed ones, in what order they are offered, and what adding one
//! stores.

use vstd::prelude::*;

use crate::decimal::{decimal, i32_to_string, id_from_text, parse_id, signed_decimal, u64_to_string};
use crate::entities::{channel, guild};
use crate::errors::{HandlerError, Reply};

verus! {

/// A channel of a guild, as Discord lists it.
#[derive(Debug, PartialEq, Eq)]
pub struct ChannelCandidate {
    pub id: u64,
    pub name: String,
    /// The channel's place in the guild's channel list.
    pub position: u16,
    /// Whether it is a text channel.
    pub is_text: bool,
}

impl ChannelCandidate {
    /// A copy of the candidate.
    pub fn duplicate(&self) -> (r: Self)
        ensures
            r == *self,
    {
        ChannelCandidate {
            id: self.id,
            name: self.name.clone(),
            position: self.position,
            is_text: self.is_text,
        }
    }
}

/// The texts of a list of strings.
pub open spec fn texts(ids: Seq<String>) -> Seq<Seq<char>> {
    ids.map_values(|s: String| s@)
}

/// Whether a candidate may be added: a text channel whose id is not among
/// the ids of the channels already managed.
pub open spec fn is_addable(c: ChannelCandidate, existing: Seq<Seq<char>>) -> bool {
    c.is_text && !existing.contains(decimal(c.id as nat))
}

/// The candidates that may be added, in the order Discord listed them.
pub open spec fn addable(candidates: Seq<ChannelCandidate>, existing: Seq<Seq<char>>) -> Seq<ChannelCandidate> {
    candidates.filter(|c: ChannelCandidate| is_addable(c, existing))
}

/// The candidates at position `p`, in their order in `s`.
pub open spec fn at_position(s: Seq<ChannelCandidate>, p: u16) -> Seq<ChannelCandidate> {
    s.filter(|c: ChannelCandidate| c.position == p)
}

/// Whether `s` is ordered by position.
pub open spec fn sorted_by_position(s: Seq<ChannelCandidate>) -> bool {
    forall|i: int, j: int| 0 <= i < j < s.len() ==> s[i].position <= s[j].position
}

/// Whether `id` is among `ids`.
fn is_listed(ids: &Vec<String>, id: &String) -> (b: bool)
    ensures
        b == texts(ids@).contains(id@),
{
    let mut j: usize = 0;
    while j < ids.len()
        invariant
            j <= ids.len(),
            forall|k: int| 0 <= k < j ==> ids@[k]@ != id@,
        decreases ids.len() - j,
    {
        if ids[j] == *id {
            assert(texts(ids@)[j as int] == id@);
            return true;
        }
        j = j + 1;
    }
    proof {
        if texts(ids@).contains(id@) {
            let k = choose|k: int| 0 <= k < texts(ids@).len() && texts(ids@)[k] == id@;
            assert(ids@[k]@ == id@);
        }
    }
    false
}

proof fn lemma_insert_at_position(r: Seq<ChannelCandidate>, k: int, c: ChannelCandidate, p: u16)
    requires
        0 <= k <= r.len(),
        forall|i: int| k <= i < r.len() ==> r[i].position > c.position,
    ensures
        at_position(r.insert(k, c), p) == if p == c.position {
            at_position(r, p).push(c)
        } else {
            at_position(r, p)
        },
{
    let pred = |x: ChannelCandidate| x.position == p;
    let front = r.take(k);
    let back = r.skip(k);
    assert(r =~= front + back);
    assert(r.insert(k, c) =~= front + seq![c] + back);
    Seq::filter_distributes_over_add(front, back, pred);
    Seq::filter_distributes_over_add(front + seq![c], back, pred);
    Seq::filter_distributes_over_add(front, seq![c], pred);
    reveal_with_fuel(Seq::filter, 2);
    assert(seq![c].drop_last() =~= Seq::<ChannelCandidate>::empty());
    if p == c.position {
        assert(back.all(|x: ChannelCandidate| !pred(x)));
        back.lemma_all_neg_filter_empty(pred);
        assert(back.filter(pred) =~= Seq::<ChannelCandidate>::empty());
        assert(at_position(r.insert(k, c), p) =~= at_position(r, p).push(c));
    } else {
        assert(seq![c].filter(pred) =~= Seq::<ChannelCandidate>::empty());
        assert(at_position(r.insert(k, c), p) =~= at_position(r, p));
    }
}

/// The channels that the "add channel" page offers: the text channels whose
/// ids are not among `existing_ids`, ordered by position, with channels of
/// one position in the order Discord listed them (a stable sort).
pub fn addable_channels(candidates: &Vec<ChannelCandidate>, existing_ids: &Vec<String>) -> (r: Vec<ChannelCandidate>)
    ensures
        sorted_by_position(r@),
        forall|p: u16| #[trigger] at_position(r@, p) == at_position(addable(candidates@, texts(existing_ids@)), p),
        // Ordered by position.
        forall|i: int, j: int| 0 <= i < j < r@.len() ==> r@[i].position <= r@[j].position,
        // Every offered channel is a listed text channel whose decimal id is
        // none of the managed ids.
        forall|i: int| 0 <= i < r@.len() ==> (#[trigger] r@[i]).is_text && candidates@.contains(r@[i])
            && forall|j: int| 0 <= j < existing_ids@.len() ==> existing_ids@[j]@ != decimal(r@[i].id as nat),
        // Every such candidate is offered.
        forall|c: ChannelCandidate| candidates@.contains(c) && c.is_text
            && (forall|j: int| 0 <= j < existing_ids@.len() ==> existing_ids@[j]@ != decimal(c.id as nat))
            ==> #[trigger] r@.contains(c),
{
    let ghost existing = texts(existing_ids@);
    let ghost pred = |c: ChannelCandidate| is_addable(c, existing);
    let mut result: Vec<ChannelCandidate> = Vec::new();
    let mut i: usize = 0;
    assert(candidates@.take(0) =~= Seq::<ChannelCandidate>::empty());
    while i < candidates.len()
        invariant
            i <= candidates.len(),
            existing == texts(existing_ids@),
            pred == (|c: ChannelCandidate| is_addable(c, existing)),
            sorted_by_position(result@),
            forall|p: u16| #[trigger] at_position(result@, p) == at_position(candidates@.take(i as int).filter(pred), p),
        decreases candidates.len() - i,
    {
        let c = &candidates[i];
        let id_text = u64_to_string(c.id);
        let listed = is_listed(existing_ids, &id_text);
        assert(candidates@.take(i + 1) =~= candidates@.take(i as int).push(candidates@[i as int]));
        proof { candidates@.take(i as int).lemma_filter_push(candidates@[i as int], pred); }
        if c.is_text && !listed {
            let mut k: usize = 0;
            while k < result.len() && result[k].position <= c.position
                invariant
                    k <= result.len(),
                    forall|j: int| 0 <= j < k ==> result@[j].position <= c.position,
                decreases result.len() - k,
            {
                k = k + 1;
            }
            let ghost old_result = result@;
            proof {
                assert forall|j: int| k <= j < old_result.len() implies old_result[j].position > c.position by {
                    if k < old_result.len() {
                        assert(old_result[k as int].position > c.position);
                        if j > k {
                            assert(old_result[k as int].position <= old_result[j].position);
                        }
                    }
                }
            }
            result.insert(k, c.duplicate());
            proof {
                assert forall|p: u16| #[trigger] at_position(result@, p) == at_position(candidates@.take(i + 1).filter(pred), p) by {
                    lemma_insert_at_position(old_result, k as int, *c, p);
                    let before = candidates@.take(i as int).filter(pred);
                    assert(pred(candidates@[i as int]));
                    assert(candidates@.take(i + 1).filter(pred) == before.push(*c));
                    before.lemma_filter_push(*c, |x: ChannelCandidate| x.position == p);
                }
                assert forall|a: int, b: int| 0 <= a < b < result@.len() implies result@[a].position <= result@[b].position by {
                    if b < k {
                    } else if b == k {
                    } else if a < k {
                        assert(result@[b] == old_result[b - 1]);
                    } else if a == k {
                        assert(result@[b] == old_result[b - 1]);
                    } else {
                        assert(result@[a] == old_result[a - 1]);
                        assert(result@[b] == old_result[b - 1]);
                    }
                }
            }
        } else {
            assert(!pred(candidates@[i as int]));
        }
        i = i + 1;
    }
    assert(candidates@.take(candidates@.len() as int) =~= candidates@);
    proof {
        let ex = texts(existing_ids@);
        lemma_offered_channels(candidates@, ex, result@);
        assert forall|i: int| 0 <= i < result@.len() implies (#[trigger] result@[i]).is_text && candidates@.contains(result@[i])
            && forall|j: int| 0 <= j < existing_ids@.len() ==> existing_ids@[j]@ != decimal(result@[i].id as nat) by {
            assert(is_addable(result@[i], ex));
            assert forall|j: int| 0 <= j < existing_ids@.len() implies existing_ids@[j]@ != decimal(result@[i].id as nat) by {
                assert(ex[j] == existing_ids@[j]@);
            }
        }
        assert forall|c: ChannelCandidate| candidates@.contains(c) && c.is_text
            && (forall|j: int| 0 <= j < existing_ids@.len() ==> existing_ids@[j]@ != decimal(c.id as nat))
            implies #[trigger] result@.contains(c) by {
            if ex.contains(decimal(c.id as nat)) {
                let j = choose|j: int| 0 <= j < ex.len() && ex[j] == decimal(c.id as nat);
                assert(existing_ids@[j]@ == ex[j]);
            }
            assert(is_addable(c, ex));
        }
    }
    result
}

proof fn lemma_filter_member<A>(s: Seq<A>, pred: spec_fn(A) -> bool, x: A)
    requires
        s.filter(pred).contains(x),
    ensures
        s.contains(x),
        pred(x),
{
    broadcast use vstd::seq_lib::group_filter_ensures;
    s.lemma_filter_contains_rev(pred, x);
    let j = choose|j: int| 0 <= j < s.filter(pred).len() && s.filter(pred)[j] == x;
    assert(pred(s.filter(pred)[j]));
}

/// The channels offered are exactly the candidates that may be added: every
/// offered channel is a listed text channel that is not managed yet, and every
/// such candidate is offered.
pub proof fn lemma_offered_channels(
    candidates: Seq<ChannelCandidate>,
    existing: Seq<Seq<char>>,
    offered: Seq<ChannelCandidate>,
)
    requires
        forall|p: u16| #[trigger] at_position(offered, p) == at_position(addable(candidates, existing), p),
    ensures
        forall|i: int| 0 <= i < offered.len() ==> #[trigger] is_addable(offered[i], existing) && candidates.contains(offered[i]),
        forall|c: ChannelCandidate| candidates.contains(c) && is_addable(c, existing) ==> #[trigger] offered.contains(c),
{
    broadcast use vstd::seq_lib::group_filter_ensures;
    let ok = |c: ChannelCandidate| is_addable(c, existing);
    assert forall|i: int| 0 <= i < offered.len() implies #[trigger] is_addable(offered[i], existing) && candidates.contains(offered[i]) by {
        let x = offered[i];
        let q = x.position;
        let at = |c: ChannelCandidate| c.position == q;
        assert(at(offered[i]));
        assert(offered.filter(at).contains(x));
        assert(at_position(offered, q) == at_position(addable(candidates, existing), q));
        lemma_filter_member(addable(candidates, existing), at, x);
        lemma_filter_member(candidates, ok, x);
    }
    assert forall|c: ChannelCandidate| candidates.contains(c) && is_addable(c, existing) implies #[trigger] offered.contains(c) by {
        let q = c.position;
        let at = |x: ChannelCandidate| x.position == q;
        let j = choose|j: int| 0 <= j < candidates.len() && candidates[j] == c;
        assert(ok(candidates[j]));
        assert(candidates.filter(ok).contains(c));
        let k = choose|k: int| 0 <= k < candidates.filter(ok).len() && candidates.filter(ok)[k] == c;
        assert(at(candidates.filter(ok)[k]));
        assert(addable(candidates, existing).filter(at).contains(c));
        assert(at_position(offered, q) == at_position(addable(candidates, existing), q));
        lemma_filter_member(offered, at, c);
    }
}

/// The form of the "add channel" page.
#[derive(Debug, PartialEq, Eq)]
pub struct AddChannelForm {
    /// The chosen channel's Discord snowflake, as the form sends it.
    pub channel: String,
    pub auto_reset: bool,
    pub auto_reset_cron: Option<String>,
    pub auto_reset_message: Option<String>,
}

/// A channel as Discord gives it when asked for one by id.
#[derive(Debug, PartialEq, Eq)]
pub enum FetchedChannel {
    /// A channel of a guild.
    Guild { id: u64, guild_id: u64, name: String },
    /// A channel of no guild.
    Other,
}

/// A channel row to insert (its id is given by the database).
#[derive(Debug, PartialEq, Eq)]
pub struct NewChannel {
    pub name: Option<String>,
    pub guild_id: i32,
    pub discord_id: String,
    pub allow_reset: bool,
    pub reset_message: Option<String>,
    pub reset_schedule: Option<String>,
}

/// The Discord id of the channel chosen in the form; a failure with the
/// text of the parse error when the form does not hold one.
pub fn requested_channel(form: &AddChannelForm) -> (r: Result<u64, HandlerError>)
    ensures
        match id_from_text(form.channel@) {
            Ok(n) => r == Ok::<u64, HandlerError>(n),
            Err(e) => r matches Err(HandlerError::Anyhow(m)) && m@ == e.text(),
        },
{
    match parse_id(form.channel.as_str()) {
        Ok(n) => Ok(n),
        Err(e) => Err(HandlerError::Anyhow(e.message())),
    }
}

/// The path `/guild/{guild_id}/channels`.
pub open spec fn channels_path(guild_id: i32) -> Seq<char> {
    "/guild/"@ + signed_decimal(guild_id as int) + "/channels"@
}

/// What adding a channel to a guild's managed channels does, once Discord
/// has given the chosen channel: a channel of that very guild is stored with
/// the form's settings, and the user is sent to the guild's channel list;
/// any other channel is forbidden.
pub fn add_post(guild_id: i32, guild: &guild::Model, form: AddChannelForm, fetched: FetchedChannel) -> (r: Result<(NewChannel, Reply), HandlerError>)
    ensures
        match fetched {
            FetchedChannel::Guild { id, guild_id: owner, name } => if decimal(owner as nat) == guild.discord_id@ {
                r matches Ok((row, Reply::Redirect(p))) && p@ == channels_path(guild_id)
                    && row.name == Some(name) && row.guild_id == guild_id
                    && row.discord_id@ == decimal(id as nat)
                    && row.allow_reset == form.auto_reset
                    && row.reset_message == form.auto_reset_message
                    && row.reset_schedule == form.auto_reset_cron
            } else {
                r matches Err(HandlerError::Forbidden)
            },
            FetchedChannel::Other => r matches Err(HandlerError::Forbidden),
        },
{
    match fetched {
        FetchedChannel::Guild { id, guild_id: owner, name } => {
            let owner_text = u64_to_string(owner);
            if owner_text == guild.discord_id {
                let row = NewChannel {
                    name: Some(name),
                    guild_id,
                    discord_id: u64_to_string(id),
                    allow_reset: form.auto_reset,
                    reset_message: form.auto_reset_message,
                    reset_schedule: form.auto_reset_cron,
                };
                let mut p = String::new();
                p.append("/guild/");
                let g = i32_to_string(guild_id);
                p.append(g.as_str());
                p.append("/channels");
                Ok((row, Reply::Redirect(p)))
            } else {
                Err(HandlerError::Forbidden)
            }
        },
        FetchedChannel::Other => Err(HandlerError::Forbidden),
    }
}

/// The Discord ids of channel rows.
pub open spec fn row_ids(rows: Seq<channel::Model>) -> Seq<Seq<char>> {
    rows.map_values(|r: channel::Model| r.discord_id@)
}

/// The channels that the "add channel" page offers for a guild, given the
/// guild's managed channel rows and its channels as Discord lists them: the
/// text channels that are not managed yet, ordered by position, stably.
pub fn add(existing_rows: &Vec<channel::Model>, candidates: &Vec<ChannelCandidate>) -> (r: Vec<ChannelCandidate>)
    ensures
        sorted_by_position(r@),
        forall|p: u16| #[trigger] at_position(r@, p) == at_position(addable(candidates@, row_ids(existing_rows@)), p),
        forall|i: int, j: int| 0 <= i < j < r@.len() ==> r@[i].position <= r@[j].position,
        forall|i: int| 0 <= i < r@.len() ==> (#[trigger] r@[i]).is_text && candidates@.contains(r@[i])
            && forall|k: int| 0 <= k < existing_rows@.len() ==> existing_rows@[k].discord_id@ != decimal(r@[i].id as nat),
        forall|c: ChannelCandidate| candidates@.contains(c) && c.is_text
            && (forall|k: int| 0 <= k < existing_rows@.len() ==> existing_rows@[k].discord_id@ != decimal(c.id as nat))
            ==> #[trigger] r@.contains(c),
{
    let mut ids: Vec<String> = Vec::new();
    let mut i: usize = 0;
    while i < existing_rows.len()
        invariant
            i <= existing_rows@.len(),
            ids@.len() == i,
            forall|j: int| 0 <= j < i ==> #[trigger] ids@[j]@ == existing_rows@[j].discord_id@,
        decreases existing_rows@.len() - i,
    {
        ids.push(existing_rows[i].discord_id.clone());
        i = i + 1;
    }
    assert(texts(ids@) =~= row_ids(existing_rows@));
    let r = addable_channels(candidates, &ids);
    proof {
        assert forall|i: int| 0 <= i < r@.len() implies (#[trigger] r@[i]).is_text && candidates@.contains(r@[i])
            && forall|k: int| 0 <= k < existing_rows@.len() ==> existing_rows@[k].discord_id@ != decimal(r@[i].id as nat) by {
            assert forall|k: int| 0 <= k < existing_rows@.len() implies existing_rows@[k].discord_id@ != decimal(r@[i].id as nat) by {
                assert(ids@[k]@ == existing_rows@[k].discord_id@);
            }
        }
        assert forall|c: ChannelCandidate| candidates@.contains(c) && c.is_text
            && (forall|k: int| 0 <= k < existing_rows@.len() ==> existing_rows@[k].discord_id@ != decimal(c.id as nat))
            implies #[trigger] r@.contains(c) by {
            assert forall|j: int| 0 <= j < ids@.len() implies ids@[j]@ != decimal(c.id as nat) by {
                assert(ids@[j]@ == existing_rows@[j].discord_id@);
            }
        }
    }
    r
}

/// A channel that is managed already is not offered again: once a row with
/// a channel's Discord id is stored (as `add_post` stores it), the page
/// built from the rows does not offer that channel.
pub proof fn lemma_managed_channel_not_offered(
    rows: Seq<channel::Model>,
    candidates: Seq<ChannelCandidate>,
    offered: Seq<ChannelCandidate>,
    c: ChannelCandidate,
)
    requires
        forall|p: u16| #[trigger] at_position(offered, p) == at_position(addable(candidates, row_ids(rows)), p),
        exists|k: int| 0 <= k < rows.len() && #[trigger] rows[k].discord_id@ == decimal(c.id as nat),
    ensures
        !offered.contains(c),
{
    let k = choose|k: int| 0 <= k < rows.len() && #[trigger] rows[k].discord_id@ == decimal(c.id as nat);
    assert(row_ids(rows)[k] == decimal(c.id as nat));
    assert(!is_addable(c, row_ids(rows)));
    lemma_offered_channels(candidates, row_ids(rows), offered);
    if offered.contains(c) {
        let i = choose|i: int| 0 <= i < offered.len() && offered[i] == c;
        assert(is_addable(offered[i], row_ids(rows)));
    }
}

} // verus!
