//! The event demultiplexer's guild registry: one entry per guild id, holding
//! the guild's availability and whether its mailbox is open.
//!
//! A guild id appears at most once: the registry is a map keyed by id, and
//! the insertion-order index holds each id exactly once. Availability always
//! equals the inverse of the last `unavailable` flag received for the guild.

use vstd::prelude::*;

use std::collections::HashMap;

use crate::protocol::event::{spec_event_guild_id, Event};
use crate::protocol::records::GuildList;

verus! {

broadcast use vstd::std_specs::hash::group_hash_axioms;

/// One registry slot: the guild's availability, and whether events for it
/// can still be delivered. A closed mailbox stays closed; such events are
/// dropped rather than blocking the demultiplexer.
#[derive(Clone, Copy, Debug, PartialEq, Eq, Structural)]
pub struct GuildEntry {
    pub available: bool,
    pub mailbox_open: bool,
}

/// What the demultiplexer does with one inbound event.
pub enum RouteDecision {
    /// A ready frame seeded placeholder entries; the caller records identity.
    CacheReady,
    /// A guild was seen for the first time: open its mailbox and hand the
    /// application a seed for a new projection.
    SeedGuild { guild_id: u64, available: bool },
    /// A known guild's availability flipped; tell its mailbox.
    AvailabilityEvent { guild_id: u64, online: bool },
    /// Deliver the event to the guild's mailbox.
    Forward { guild_id: u64 },
    /// The guild has no open mailbox; the event is discarded.
    DropNoMailbox { guild_id: u64 },
    /// A resume completed: every available guild hears it is online.
    OnlineAll { guild_ids: Vec<u64> },
    /// The session was invalidated; the supervisor must forget it.
    ForgetSession,
    /// Nothing to do at this layer.
    Ignore,
}

/// The registry after seeding placeholder entries for each id of the initial
/// guild list: ids already present keep their entry, new ids enter as
/// unavailable with a closed mailbox.
pub open spec fn seed_all(m: Map<u64, GuildEntry>, ids: Seq<u64>) -> Map<u64, GuildEntry>
    decreases ids.len(),
{
    if ids.len() == 0 {
        m
    } else {
        let prev = seed_all(m, ids.drop_last());
        if prev.contains_key(ids.last()) {
            prev
        } else {
            prev.insert(ids.last(), GuildEntry { available: false, mailbox_open: false })
        }
    }
}

/// Membership in a pushed sequence: the old members plus the new element.
proof fn lemma_push_contains(s: Seq<u64>, x: u64)
    ensures
        forall|g: u64| #[trigger] s.push(x).contains(g) <==> s.contains(g) || g == x,
{
    assert forall|g: u64| #[trigger] s.push(x).contains(g) implies s.contains(g) || g == x by {
        let i = choose|i: int| 0 <= i < s.push(x).len() && s.push(x)[i] == g;
        if i < s.len() {
            assert(s[i] == g);
        }
    }
    assert forall|g: u64| s.contains(g) || g == x implies #[trigger] s.push(x).contains(g) by {
        if s.contains(g) {
            let i = choose|i: int| 0 <= i < s.len() && s[i] == g;
            assert(s.push(x)[i] == g);
        } else {
            assert(s.push(x)[s.len() as int] == g);
        }
    }
}

/// The map from guild id to registry entry, with an insertion-order index of
/// its ids.
pub struct GuildRegistry {
    pub entries: HashMap<u64, GuildEntry>,
    pub ids: Vec<u64>,
}

impl GuildRegistry {
    /// The id index holds exactly the registered ids, each once.
    pub open spec fn wf(&self) -> bool {
        &&& (forall|i: int, k: int| 0 <= i < k < self.ids@.len() ==> self.ids@[i] != self.ids@[k])
        &&& (forall|g: u64| self.entries@.contains_key(g) <==> self.ids@.contains(g))
    }

    pub open spec fn view(&self) -> Map<u64, GuildEntry> {
        self.entries@
    }

    pub fn new() -> (r: GuildRegistry)
        ensures
            r@ =~= Map::<u64, GuildEntry>::empty(),
            r.wf(),
    {
        let r = GuildRegistry { entries: HashMap::new(), ids: Vec::new() };
        proof {
            assert(r@ =~= Map::<u64, GuildEntry>::empty());
        }
        r
    }

    /// True when the guild is registered.
    pub fn contains(&self, guild_id: u64) -> (r: bool)
        ensures
            r == self@.contains_key(guild_id),
    {
        self.entries.contains_key(&guild_id)
    }

    /// The entry of a registered guild.
    pub fn entry(&self, guild_id: u64) -> (r: Option<GuildEntry>)
        ensures
            match r {
                Some(e) => self@.contains_key(guild_id) && self@[guild_id] == e,
                None => !self@.contains_key(guild_id),
            },
    {
        match self.entries.get(&guild_id) {
            Some(e) => Some(*e),
            None => None,
        }
    }

    /// Registers or replaces an entry.
    fn put(&mut self, guild_id: u64, entry: GuildEntry)
        requires
            old(self).wf(),
        ensures
            final(self).wf(),
            final(self)@ == old(self)@.insert(guild_id, entry),
    {
        if !self.entries.contains_key(&guild_id) {
            self.ids.push(guild_id);
            proof {
                lemma_push_contains(old(self).ids@, guild_id);
                assert(!old(self).ids@.contains(guild_id));
                assert forall|i: int, k: int|
                    0 <= i < k < self.ids@.len() implies self.ids@[i] != self.ids@[k] by {
                    if k < self.ids@.len() - 1 {
                        assert(self.ids@[i] == old(self).ids@[i]);
                        assert(self.ids@[k] == old(self).ids@[k]);
                    } else {
                        assert(self.ids@[i] == old(self).ids@[i]);
                        assert(old(self).ids@.contains(old(self).ids@[i]));
                        assert(self.ids@[k] == guild_id);
                    }
                }
            }
        }
        self.entries.insert(guild_id, entry);
        proof {
            assert(self.entries@ == old(self).entries@.insert(guild_id, entry));
            if old(self).entries@.contains_key(guild_id) {
                assert(self.ids@ == old(self).ids@);
                assert forall|g: u64| self.entries@.contains_key(g) <==> self.ids@.contains(
                    g,
                ) by {
                    assert(self.entries@.contains_key(g) <==> (g == guild_id
                        || old(self).entries@.contains_key(g)));
                }
            } else {
                assert(self.ids@ == old(self).ids@.push(guild_id));
                lemma_push_contains(old(self).ids@, guild_id);
                assert forall|g: u64| self.entries@.contains_key(g) <==> self.ids@.contains(
                    g,
                ) by {
                    assert(self.entries@.contains_key(g) <==> (g == guild_id
                        || old(self).entries@.contains_key(g)));
                    assert(self.ids@.contains(g) <==> (old(self).ids@.contains(g) || g
                        == guild_id));
                }
            }
        }
    }

    /// Seeds placeholder entries for the initial guild list: each listed id
    /// becomes a registered, unavailable guild with no mailbox yet; ids that
    /// are already registered keep their entry.
    pub fn seed(&mut self, guilds: &GuildList)
        requires
            old(self).wf(),
        ensures
            final(self).wf(),
            final(self)@ == seed_all(old(self)@, guilds@),
    {
        let mut i: usize = 0;
        proof {
            assert(guilds@.take(0) =~= Seq::<u64>::empty());
        }
        while i < guilds.ids.len()
            invariant
                0 <= i <= guilds.ids@.len(),
                self.wf(),
                self@ == seed_all(old(self)@, guilds@.take(i as int)),
            decreases guilds.ids@.len() - i,
        {
            proof {
                assert(guilds@.take(i + 1).drop_last() =~= guilds@.take(i as int));
                assert(guilds@.take(i + 1).last() == guilds@[i as int]);
                assert(guilds@[i as int] == guilds.ids@[i as int].value);
            }
            let id = guilds.ids[i].value;
            if !self.contains(id) {
                self.put(id, GuildEntry { available: false, mailbox_open: false });
            }
            i = i + 1;
        }
        proof {
            assert(guilds@.take(i as int) =~= guilds@);
        }
    }

    /// Applies a guild-create frame. A guild without an open mailbox is
    /// seeded: its mailbox opens and its availability comes from the flag. A
    /// guild with an open mailbox keeps it; its availability follows the
    /// flag, and a flip is announced to the mailbox. Either way the entry's
    /// availability afterwards is the inverse of the received flag.
    pub fn on_guild_create(&mut self, guild_id: u64, unavailable: bool) -> (r: RouteDecision)
        requires
            old(self).wf(),
        ensures
            final(self).wf(),
            final(self)@ == old(self)@.insert(
                guild_id,
                GuildEntry { available: !unavailable, mailbox_open: true },
            ),
            final(self)@[guild_id].available == !unavailable,
            ({
                let fresh = !old(self)@.contains_key(guild_id) || !old(
                    self,
                )@[guild_id].mailbox_open;
                if fresh {
                    r matches RouteDecision::SeedGuild { guild_id: g, available: a } && g
                        == guild_id && a == !unavailable
                } else if old(self)@[guild_id].available != !unavailable {
                    r matches RouteDecision::AvailabilityEvent { guild_id: g, online: o } && g
                        == guild_id && o == !unavailable
                } else {
                    r is Ignore
                }
            }),
    {
        let available = !unavailable;
        let fresh = match self.entry(guild_id) {
            None => true,
            Some(e) => !e.mailbox_open,
        };
        if fresh {
            self.put(guild_id, GuildEntry { available, mailbox_open: true });
            RouteDecision::SeedGuild { guild_id, available }
        } else {
            let was_available = match self.entry(guild_id) {
                Some(e) => e.available,
                None => false,
            };
            self.put(guild_id, GuildEntry { available, mailbox_open: true });
            if was_available != available {
                RouteDecision::AvailabilityEvent { guild_id, online: available }
            } else {
                RouteDecision::Ignore
            }
        }
    }

    /// Closes a guild's mailbox once its consumer is gone; later events for
    /// the guild are dropped instead of delivered.
    pub fn drop_mailbox(&mut self, guild_id: u64)
        requires
            old(self).wf(),
        ensures
            final(self).wf(),
            old(self)@.contains_key(guild_id) ==> final(self)@ == old(self)@.insert(
                guild_id,
                GuildEntry { available: old(self)@[guild_id].available, mailbox_open: false },
            ),
            !old(self)@.contains_key(guild_id) ==> final(self)@ == old(self)@,
    {
        match self.entry(guild_id) {
            Some(e) => {
                self.put(guild_id, GuildEntry { available: e.available, mailbox_open: false });
            },
            None => {
                proof {
                    assert(self@ =~= old(self)@);
                }
            },
        }
    }

    /// The registered guilds that are currently available.
    pub fn available_guilds(&self) -> (r: Vec<u64>)
        requires
            self.wf(),
        ensures
            forall|g: u64| #[trigger]
                r@.contains(g) <==> self@.contains_key(g) && self@[g].available,
    {
        let mut out: Vec<u64> = Vec::new();
        let mut i: usize = 0;
        while i < self.ids.len()
            invariant
                0 <= i <= self.ids@.len(),
                self.wf(),
                forall|g: u64| #[trigger]
                    out@.contains(g) ==> self@.contains_key(g) && self@[g].available,
                forall|g: u64| #[trigger]
                    out@.contains(g) ==> exists|k: int| 0 <= k < i && self.ids@[k] == g,
                forall|k: int|
                    0 <= k < i && self@.contains_key(self.ids@[k])
                        && self@[self.ids@[k]].available ==> out@.contains(self.ids@[k]),
            decreases self.ids@.len() - i,
        {
            let id = self.ids[i];
            let keep = match self.entries.get(&id) {
                Some(e) => e.available,
                None => false,
            };
            let ghost old_out = out@;
            if keep {
                out.push(id);
                proof {
                    lemma_push_contains(old_out, id);
                    assert(self.ids@.contains(id));
                }
            }
            proof {
                assert forall|g: u64| #[trigger] out@.contains(g) implies exists|k: int|
                    0 <= k < i + 1 && self.ids@[k] == g by {
                    if old_out.contains(g) {
                        let k = choose|k: int| 0 <= k < i && self.ids@[k] == g;
                        assert(self.ids@[k] == g);
                    } else {
                        assert(self.ids@[i as int] == g);
                    }
                }
            }
            i = i + 1;
        }
        proof {
            assert forall|g: u64|
                self@.contains_key(g) && self@[g].available implies #[trigger] out@.contains(
                g,
            ) by {
                assert(self.ids@.contains(g));
                let k = choose|k: int| 0 <= k < self.ids@.len() && self.ids@[k] == g;
                assert(out@.contains(self.ids@[k]));
            }
        }
        out
    }

    /// Routes one inbound event, per the demultiplexer's rules.
    pub fn demux(&mut self, event: &Event) -> (r: RouteDecision)
        requires
            old(self).wf(),
        ensures
            final(self).wf(),
            event matches Event::Ready(ready) ==> (r is CacheReady && final(self)@ == seed_all(
                old(self)@,
                ready.guilds@,
            )),
            event matches Event::GuildCreate(g) ==> final(self)@[g.id.value].available
                == !g.unavailable,
            (*event is Resumed || *event is InvalidSession || *event is Hello || *event
                is HeartbeatAck || *event is Unknown) ==> final(self)@ == old(self)@,
            *event is Resumed ==> (r matches RouteDecision::OnlineAll { guild_ids } && forall|
                g: u64,
            | #[trigger]
                guild_ids@.contains(g) <==> (final(self)@.contains_key(g)
                    && final(self)@[g].available)),
            *event is InvalidSession ==> r is ForgetSession,
            (*event is Hello || *event is HeartbeatAck || *event is Unknown) ==> r is Ignore,
            event matches Event::GuildCreate(g) ==> (final(self)@ == old(self)@.insert(
                g.id.value,
                GuildEntry { available: !g.unavailable, mailbox_open: true },
            ) && ({
                let fresh = !old(self)@.contains_key(g.id.value) || !old(
                    self,
                )@[g.id.value].mailbox_open;
                if fresh {
                    r matches RouteDecision::SeedGuild { guild_id, available } && guild_id
                        == g.id.value && available == !g.unavailable
                } else if old(self)@[g.id.value].available != !g.unavailable {
                    r matches RouteDecision::AvailabilityEvent { guild_id, online } && guild_id
                        == g.id.value && online == !g.unavailable
                } else {
                    r is Ignore
                }
            })),
            !(*event is Ready || *event is GuildCreate || *event is Resumed || *event
                is InvalidSession || *event is Hello || *event is HeartbeatAck || *event
                is Unknown) ==> (final(self)@ == old(self)@ && (match spec_event_guild_id(
                *event,
            ) {
                Some(g) => if old(self)@.contains_key(g.value)
                    && old(self)@[g.value].mailbox_open {
                    r matches RouteDecision::Forward { guild_id } && guild_id == g.value
                } else {
                    r matches RouteDecision::DropNoMailbox { guild_id } && guild_id == g.value
                },
                None => r is Ignore,
            })),
    {
        match event {
            Event::Ready(ready) => {
                self.seed(&ready.guilds);
                RouteDecision::CacheReady
            },
            Event::GuildCreate(g) => self.on_guild_create(g.id.value, g.unavailable),
            Event::Resumed => RouteDecision::OnlineAll { guild_ids: self.available_guilds() },
            Event::InvalidSession(_) => RouteDecision::ForgetSession,
            Event::Hello(_) => RouteDecision::Ignore,
            Event::HeartbeatAck => RouteDecision::Ignore,
            Event::Unknown(_) => RouteDecision::Ignore,
            e => {
                match e.guild_id() {
                    Some(g) => {
                        let open = match self.entry(g.value) {
                            Some(entry) => entry.mailbox_open,
                            None => false,
                        };
                        if open {
                            RouteDecision::Forward { guild_id: g.value }
                        } else {
                            RouteDecision::DropNoMailbox { guild_id: g.value }
                        }
                    },
                    None => RouteDecision::Ignore,
                }
            },
        }
    }
}

} // verus!
