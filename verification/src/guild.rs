//! The per-guild state projection: local maps of channels, roles and
//! members, maintained by applying the guild's dispatch events.

use vstd::prelude::*;

use std::collections::HashMap;

use crate::protocol::event::{Event, Guild as GuildPayload};
use crate::protocol::records::{ApplicationCommand, Channel, ChannelV, Member, MemberV, Role, RoleV, User};
use crate::snowflake::Snowflake;

verus! {

broadcast use vstd::std_specs::hash::group_hash_axioms;

/// The one reported change of a member's role set: the first differing
/// role id, an addition taking precedence over a removal.
#[derive(Clone, Copy, Debug, PartialEq, Eq, Structural)]
pub enum RoleDiff {
    Added(u64),
    Removed(u64),
}

/// The fine-grained changes inferred from a member update: each field is
/// present exactly when it differs from the held member, carrying the new
/// value.
pub struct MemberDiff {
    pub user_id: u64,
    pub nickname: Option<Option<String>>,
    pub username: Option<(String, String)>,
    pub discriminator: Option<(String, String)>,
    pub avatar: Option<Option<String>>,
    pub premium_since: Option<Option<String>>,
    pub role_change: Option<RoleDiff>,
}

/// What the caller must do after one event was applied.
pub struct ApplyOutcome {
    /// Pass the event on to the application; false for messages the
    /// projection swallows (webhook authors, non-default kinds).
    pub forward: bool,
    /// Issue a member request: the member-count hint exceeds the map.
    pub request_members: bool,
    /// Fine-grained changes inferred from a member update.
    pub member_diff: Option<MemberDiff>,
}

fn clone_string(s: &String) -> (r: String)
    ensures
        r@ == s@,
{
    s.clone()
}

fn clone_opt_string(s: &Option<String>) -> (r: Option<String>)
    ensures
        match s {
            Some(x) => r matches Some(y) && y@ == x@,
            None => r is None,
        },
{
    match s {
        Some(x) => Some(x.clone()),
        None => None,
    }
}

fn clone_ids(v: &Vec<Snowflake>) -> (r: Vec<Snowflake>)
    ensures
        r@ == v@,
{
    let mut out: Vec<Snowflake> = Vec::new();
    let mut i: usize = 0;
    while i < v.len()
        invariant
            0 <= i <= v@.len(),
            out@ == v@.take(i as int),
        decreases v@.len() - i,
    {
        out.push(v[i]);
        proof {
            assert(out@ =~= v@.take(i + 1));
        }
        i = i + 1;
    }
    proof {
        assert(v@.take(i as int) =~= v@);
    }
    out
}

fn clone_user(u: &User) -> (r: User)
    ensures
        r@ == u@,
{
    User {
        id: u.id,
        username: clone_string(&u.username),
        discriminator: clone_string(&u.discriminator),
        avatar: clone_opt_string(&u.avatar),
        bot: u.bot,
        system: u.system,
    }
}

fn clone_member(m: &Member) -> (r: Member)
    ensures
        r@ == m@,
{
    Member {
        user: match &m.user {
            Some(u) => Some(clone_user(u)),
            None => None,
        },
        nick: clone_opt_string(&m.nick),
        roles: clone_ids(&m.roles),
        joined_at: clone_string(&m.joined_at),
        hoisted_role: m.hoisted_role,
        premium_since: clone_opt_string(&m.premium_since),
        deaf: m.deaf,
        mute: m.mute,
    }
}

fn clone_role(x: &Role) -> (r: Role)
    ensures
        r@ == x@,
{
    Role {
        id: x.id,
        name: clone_string(&x.name),
        color: x.color,
        hoist: x.hoist,
        position: x.position,
        permissions: x.permissions,
        managed: x.managed,
        mentionable: x.mentionable,
    }
}

fn clone_channel(c: &Channel) -> (r: Channel)
    ensures
        r@ == c@,
{
    Channel {
        id: c.id,
        channel_type: c.channel_type,
        guild_id: c.guild_id,
        position: c.position,
        name: clone_opt_string(&c.name),
        topic: clone_opt_string(&c.topic),
        nsfw: c.nsfw,
        bitrate: c.bitrate,
        user_limit: c.user_limit,
        rate_limit_per_user: c.rate_limit_per_user,
        parent_id: c.parent_id,
    }
}

/// Membership in a pushed sequence: the old members plus the new element.
proof fn lemma_push_contains(s: Seq<u64>, x: u64)
    ensures
        forall|g: u64| #[trigger] s.push(x).contains(g) <==> s.contains(g) || g == x,
{
    assert forall|g: u64| #[trigger] s.push(x).contains(g) implies s.contains(g) || g == x by {
        let i = choose|i: int| 0 <= i < s.push(x).len() && s.push(x)[i] == g;
        if i < s.len() {
            assert(s[i] == g);
        }
    }
    assert forall|g: u64| s.contains(g) || g == x implies #[trigger] s.push(x).contains(g) by {
        if s.contains(g) {
            let i = choose|i: int| 0 <= i < s.len() && s[i] == g;
            assert(s.push(x)[i] == g);
        } else {
            assert(s.push(x)[s.len() as int] == g);
        }
    }
}

/// The projection of one guild: identity, availability, and the local maps.
pub struct Guild {
    pub id: Snowflake,
    pub user_id: Snowflake,
    pub name: String,
    pub available: bool,
    pub member_count: u64,
    pub channels: HashMap<u64, Channel>,
    pub roles: HashMap<u64, Role>,
    pub members: HashMap<u64, Member>,
    pub member_ids: Vec<u64>,
    pub commands: Vec<ApplicationCommand>,
}

impl Guild {
    /// The member-id index holds exactly the mapped ids, each once.
    pub open spec fn wf(&self) -> bool {
        &&& (forall|i: int, k: int|
            0 <= i < k < self.member_ids@.len() ==> self.member_ids@[i] != self.member_ids@[k])
        &&& (forall|g: u64| self.members@.contains_key(g) <==> self.member_ids@.contains(g))
    }

    pub fn id(&self) -> (r: Snowflake)
        ensures
            r == self.id,
    {
        self.id
    }

    pub fn user_id(&self) -> (r: Snowflake)
        ensures
            r == self.user_id,
    {
        self.user_id
    }

    pub fn name(&self) -> (r: &String)
        ensures
            r == &self.name,
    {
        &self.name
    }

    pub fn available(&self) -> (r: bool)
        ensures
            r == self.available,
    {
        self.available
    }

    pub fn member_count(&self) -> (r: u64)
        ensures
            r == self.member_count,
    {
        self.member_count
    }

    pub fn channel(&self, id: u64) -> (r: Option<&Channel>)
        ensures
            match r {
                Some(c) => self.channels@.contains_key(id) && *c == self.channels@[id],
                None => !self.channels@.contains_key(id),
            },
    {
        self.channels.get(&id)
    }

    pub fn role(&self, id: u64) -> (r: Option<&Role>)
        ensures
            match r {
                Some(x) => self.roles@.contains_key(id) && *x == self.roles@[id],
                None => !self.roles@.contains_key(id),
            },
    {
        self.roles.get(&id)
    }

    pub fn member(&self, id: u64) -> (r: Option<&Member>)
        ensures
            match r {
                Some(m) => self.members@.contains_key(id) && *m == self.members@[id],
                None => !self.members@.contains_key(id),
            },
    {
        self.members.get(&id)
    }

    /// Upserts one member keyed by its user id; members without a user are
    /// ignored.
    fn put_member(&mut self, m: Member)
        requires
            old(self).wf(),
        ensures
            final(self).wf(),
            final(self).id == old(self).id,
            final(self).user_id == old(self).user_id,
            final(self).name == old(self).name,
            final(self).available == old(self).available,
            final(self).member_count == old(self).member_count,
            final(self).commands == old(self).commands,
            final(self).channels == old(self).channels,
            final(self).roles == old(self).roles,
            m.user is None ==> final(self).members@ == old(self).members@,
            m.user matches Some(u) ==> final(self).members@ == old(self).members@.insert(
                u.id.value,
                m,
            ),
    {
        let user_id = match &m.user {
            Some(u) => u.id.value,
            None => {
                return ;
            },
        };
        if !self.members.contains_key(&user_id) {
            self.member_ids.push(user_id);
            proof {
                lemma_push_contains(old(self).member_ids@, user_id);
                assert(!old(self).member_ids@.contains(user_id));
                assert forall|i: int, k: int|
                    0 <= i < k < self.member_ids@.len() implies self.member_ids@[i]
                    != self.member_ids@[k] by {
                    if k < self.member_ids@.len() - 1 {
                        assert(self.member_ids@[i] == old(self).member_ids@[i]);
                        assert(self.member_ids@[k] == old(self).member_ids@[k]);
                    } else {
                        assert(self.member_ids@[i] == old(self).member_ids@[i]);
                        assert(old(self).member_ids@.contains(old(self).member_ids@[i]));
                        assert(self.member_ids@[k] == user_id);
                    }
                }
            }
        }
        self.members.insert(user_id, m);
        proof {
            if !old(self).members@.contains_key(user_id) {
                lemma_push_contains(old(self).member_ids@, user_id);
            }
            assert forall|g: u64|
                self.members@.contains_key(g) <==> self.member_ids@.contains(g) by {
                assert(self.members@.contains_key(g) <==> (g == user_id
                    || old(self).members@.contains_key(g)));
            }
        }
    }

    /// Removes one member by user id.
    fn remove_member(&mut self, user_id: u64)
        requires
            old(self).wf(),
        ensures
            final(self).wf(),
            final(self).id == old(self).id,
            final(self).user_id == old(self).user_id,
            final(self).name == old(self).name,
            final(self).available == old(self).available,
            final(self).member_count == old(self).member_count,
            final(self).commands == old(self).commands,
            final(self).channels == old(self).channels,
            final(self).roles == old(self).roles,
            final(self).members@ == old(self).members@.remove(user_id),
    {
        self.members.remove(&user_id);
        let mut kept: Vec<u64> = Vec::new();
        let mut i: usize = 0;
        while i < self.member_ids.len()
            invariant
                0 <= i <= self.member_ids@.len(),
                self.member_ids == old(self).member_ids,
                old(self).wf(),
                forall|j: int|
                    0 <= j < kept@.len() ==> #[trigger] kept@[j] != user_id,
                forall|j: int|
                    0 <= j < kept@.len() ==> old(self).member_ids@.take(i as int).contains(
                        #[trigger] kept@[j],
                    ),
                forall|g: u64|
                    g != user_id && self.member_ids@.take(i as int).contains(g)
                        ==> kept@.contains(g),
                forall|j: int, l: int| 0 <= j < l < kept@.len() ==> kept@[j] != kept@[l],
            decreases self.member_ids@.len() - i,
        {
            let id = self.member_ids[i];
            let ghost before = kept@;
            if id != user_id {
                kept.push(id);
                proof {
                    lemma_push_contains(before, id);
                    assert(self.member_ids@.take(i + 1).contains(id)) by {
                        assert(self.member_ids@.take(i + 1)[i as int] == id);
                    }
                    assert forall|j: int, l: int|
                        0 <= j < l < kept@.len() implies kept@[j] != kept@[l] by {
                        if l < kept@.len() - 1 {
                            assert(kept@[j] == before[j]);
                            assert(kept@[l] == before[l]);
                        } else {
                            assert(kept@[j] == before[j]);
                            assert(old(self).member_ids@.take(i as int).contains(before[j]));
                            let w = choose|w: int|
                                0 <= w < i && #[trigger] old(self).member_ids@.take(
                                    i as int,
                                )[w] == before[j];
                            assert(old(self).member_ids@[w] == before[j]);
                            assert(kept@[l] == id);
                            assert(old(self).member_ids@[i as int] == id);
                        }
                    }
                    assert forall|j: int|
                        0 <= j < kept@.len() implies old(self).member_ids@.take(i + 1).contains(
                        #[trigger] kept@[j],
                    ) by {
                        if j < kept@.len() - 1 {
                            assert(kept@[j] == before[j]);
                            assert(old(self).member_ids@.take(i as int).contains(before[j]));
                            let w = choose|w: int|
                                0 <= w < i && #[trigger] old(self).member_ids@.take(
                                    i as int,
                                )[w] == before[j];
                            assert(old(self).member_ids@.take(i + 1)[w] == before[j]);
                        } else {
                            assert(kept@[j] == id);
                            assert(old(self).member_ids@.take(i + 1)[i as int] == id);
                        }
                    }
                }
            } else {
                proof {
                    assert forall|j: int|
                        0 <= j < kept@.len() implies old(self).member_ids@.take(i + 1).contains(
                        #[trigger] kept@[j],
                    ) by {
                        assert(old(self).member_ids@.take(i as int).contains(kept@[j]));
                        let w = choose|w: int|
                            0 <= w < i && #[trigger] old(self).member_ids@.take(
                                i as int,
                            )[w] == kept@[j];
                        assert(old(self).member_ids@.take(i + 1)[w] == kept@[j]);
                    }
                }
            }
            proof {
                assert forall|g: u64|
                    g != user_id && self.member_ids@.take(i + 1).contains(g) implies kept@.contains(
                    g,
                ) by {
                    let w = choose|w: int|
                        0 <= w < i + 1 && #[trigger] self.member_ids@.take(i + 1)[w] == g;
                    if w < i {
                        assert(self.member_ids@.take(i as int)[w] == g);
                        assert(before.contains(g) ==> kept@.contains(g)) by {
                            if before.contains(g) {
                                let v = choose|v: int| 0 <= v < before.len() && before[v] == g;
                                assert(kept@[v] == g);
                            }
                        }
                    } else {
                        assert(self.member_ids@[i as int] == g);
                        assert(kept@.last() == g);
                    }
                }
            }
            i = i + 1;
        }
        proof {
            assert(self.member_ids@.take(i as int) =~= self.member_ids@);
        }
        self.member_ids = kept;
        proof {
            assert forall|g: u64|
                self.members@.contains_key(g) <==> self.member_ids@.contains(g) by {
                if self.member_ids@.contains(g) {
                    let v = choose|v: int|
                        0 <= v < self.member_ids@.len() && self.member_ids@[v] == g;
                }
                assert(self.members@ == old(self).members@.remove(user_id));
                assert(old(self).members@.contains_key(g) <==> old(
                    self,
                ).member_ids@.contains(g));
            }
        }
    }
}


/// The role ids of a member, as plain values.
pub open spec fn role_values(roles: Seq<Snowflake>) -> Seq<u64> {
    roles.map_values(|x: Snowflake| x.value)
}

fn ids_contains(v: &Vec<Snowflake>, n: u64) -> (r: bool)
    ensures
        r == role_values(v@).contains(n),
{
    let mut i: usize = 0;
    while i < v.len()
        invariant
            0 <= i <= v@.len(),
            forall|k: int| 0 <= k < i ==> role_values(v@)[k] != n,
        decreases v@.len() - i,
    {
        if v[i].value == n {
            proof {
                assert(role_values(v@)[i as int] == n);
            }
            return true;
        }
        i = i + 1;
    }
    false
}

/// A copy of the member without one role; every other field and every other
/// role is kept.
fn member_without_role(m: &Member, role_id: u64) -> (r: Member)
    ensures
        r.user is Some <==> m.user is Some,
        m.user matches Some(u) ==> (r.user matches Some(v) && v@ == u@),
        !role_values(r.roles@).contains(role_id),
        forall|n: u64|
            n != role_id ==> (role_values(r.roles@).contains(n) == role_values(
                m.roles@,
            ).contains(n)),
{
    let mut roles: Vec<Snowflake> = Vec::new();
    let mut i: usize = 0;
    while i < m.roles.len()
        invariant
            0 <= i <= m.roles@.len(),
            forall|j: int| 0 <= j < roles@.len() ==> #[trigger] roles@[j].value != role_id,
            forall|j: int|
                0 <= j < roles@.len() ==> role_values(m.roles@).contains(
                    #[trigger] roles@[j].value,
                ),
            forall|k: int|
                0 <= k < i && role_values(m.roles@)[k] != role_id ==> role_values(
                    roles@,
                ).contains(role_values(m.roles@)[k]),
        decreases m.roles@.len() - i,
    {
        let s = m.roles[i];
        let ghost before = roles@;
        if s.value != role_id {
            roles.push(s);
            proof {
                assert(role_values(m.roles@)[i as int] == s.value);
                assert(forall|j: int|
                    0 <= j < before.len() ==> roles@[j] == before[j]);
                assert(roles@.last() == s);
                assert forall|k: int|
                    0 <= k < i + 1 && role_values(m.roles@)[k] != role_id implies role_values(
                    roles@,
                ).contains(role_values(m.roles@)[k]) by {
                    if k < i {
                        assert(role_values(before).contains(role_values(m.roles@)[k]));
                        let w = choose|w: int|
                            0 <= w < before.len() && #[trigger] role_values(before)[w]
                                == role_values(m.roles@)[k];
                        assert(role_values(roles@)[w] == role_values(m.roles@)[k]);
                    } else {
                        assert(role_values(roles@).last() == s.value);
                    }
                }
            }
        } else {
            proof {
                assert(role_values(m.roles@)[i as int] == role_id);
            }
        }
        i = i + 1;
    }
    proof {
        assert forall|n: u64|
            n != role_id && role_values(m.roles@).contains(n) implies role_values(
            roles@,
        ).contains(n) by {
            let k = choose|k: int|
                0 <= k < m.roles@.len() && #[trigger] role_values(m.roles@)[k] == n;
        }
        assert forall|n: u64| #[trigger]
            role_values(roles@).contains(n) implies role_values(m.roles@).contains(n) by {
            let j = choose|j: int|
                0 <= j < roles@.len() && #[trigger] role_values(roles@)[j] == n;
            assert(roles@[j].value == n);
        }
        assert(!role_values(roles@).contains(role_id)) by {
            if role_values(roles@).contains(role_id) {
                let j = choose|j: int|
                    0 <= j < roles@.len() && #[trigger] role_values(roles@)[j] == role_id;
                assert(roles@[j].value == role_id);
            }
        }
    }
    Member {
        user: match &m.user {
            Some(u) => Some(clone_user(u)),
            None => None,
        },
        nick: clone_opt_string(&m.nick),
        roles,
        joined_at: clone_string(&m.joined_at),
        hoisted_role: m.hoisted_role,
        premium_since: clone_opt_string(&m.premium_since),
        deaf: m.deaf,
        mute: m.mute,
    }
}

/// The first id of `a` that does not occur in `b`.
pub open spec fn first_extra(a: Seq<u64>, b: Seq<u64>) -> Option<u64>
    decreases a.len(),
{
    if a.len() == 0 {
        None
    } else if !b.contains(a[0]) {
        Some(a[0])
    } else {
        first_extra(a.skip(1), b)
    }
}

/// The first id of `a` missing from `b`, scanning in order.
fn find_first_extra(a: &Vec<Snowflake>, b: &Vec<Snowflake>) -> (r: Option<u64>)
    ensures
        r == first_extra(role_values(a@), role_values(b@)),
{
    let mut i: usize = 0;
    proof {
        assert(role_values(a@).skip(0) =~= role_values(a@));
    }
    while i < a.len()
        invariant
            0 <= i <= a@.len(),
            first_extra(role_values(a@), role_values(b@)) == first_extra(
                role_values(a@).skip(i as int),
                role_values(b@),
            ),
        decreases a@.len() - i,
    {
        proof {
            assert(role_values(a@).skip(i as int)[0] == role_values(a@)[i as int]);
            assert(role_values(a@).skip(i as int).skip(1) =~= role_values(a@).skip(i + 1));
        }
        if !ids_contains(b, a[i].value) {
            proof {
                assert(role_values(a@)[i as int] == a@[i as int].value);
            }
            return Some(a[i].value);
        }
        i = i + 1;
    }
    proof {
        assert(role_values(a@).skip(i as int) =~= Seq::<u64>::empty());
    }
    None
}

impl Guild {
    /// Deletes a role everywhere: out of the role map, and out of every
    /// member's role set. No member retains the deleted role id afterwards.
    pub fn delete_role(&mut self, role_id: u64)
        requires
            old(self).wf(),
        ensures
            final(self).wf(),
            final(self).id == old(self).id,
            final(self).user_id == old(self).user_id,
            final(self).name == old(self).name,
            final(self).available == old(self).available,
            final(self).member_count == old(self).member_count,
            final(self).commands == old(self).commands,
            final(self).channels == old(self).channels,
            final(self).roles@ == old(self).roles@.remove(role_id),
            final(self).members@.dom() == old(self).members@.dom(),
            forall|g: u64|
                final(self).members@.contains_key(g) ==> !role_values(
                    (#[trigger] final(self).members@[g]).roles@,
                ).contains(role_id),
            forall|g: u64, n: u64|
                final(self).members@.contains_key(g) && n != role_id ==> #[trigger] role_values(
                    final(self).members@[g].roles@,
                ).contains(n) == role_values(old(self).members@[g].roles@).contains(n),
    {
        self.roles.remove(&role_id);
        let n = self.member_ids.len();
        let mut i: usize = 0;
        while i < n
            invariant
                0 <= i <= n,
                n == self.member_ids@.len(),
                self.wf(),
                self.member_ids == old(self).member_ids,
                self.id == old(self).id,
                self.user_id == old(self).user_id,
                self.name == old(self).name,
                self.available == old(self).available,
                self.member_count == old(self).member_count,
                self.commands == old(self).commands,
                self.roles@ == old(self).roles@.remove(role_id),
                self.channels == old(self).channels,
                self.members@.dom() =~= old(self).members@.dom(),
                forall|k: int|
                    0 <= k < i ==> !role_values(
                        (#[trigger] self.members@[self.member_ids@[k]]).roles@,
                    ).contains(role_id),
                forall|k: int, m: u64|
                    0 <= k < i && m != role_id ==> #[trigger] role_values(
                        self.members@[self.member_ids@[k]].roles@,
                    ).contains(m) == role_values(
                        old(self).members@[self.member_ids@[k]].roles@,
                    ).contains(m),
                forall|k: int|
                    i <= k < n ==> #[trigger] self.members@[self.member_ids@[k]] == old(
                        self,
                    ).members@[self.member_ids@[k]],
            decreases n - i,
        {
            let id = self.member_ids[i];
            proof {
                assert(self.member_ids@.contains(id));
            }
            let stripped = match self.members.get(&id) {
                Some(m) => member_without_role(m, role_id),
                None => {
                    proof {
                        assert(false);
                    }
                    return ;
                },
            };
            let ghost before = self.members@;
            self.members.insert(id, stripped);
            proof {
                assert(self.members@.dom() =~= before.dom());
                assert forall|k: int|
                    0 <= k < i + 1 implies !role_values(
                    (#[trigger] self.members@[self.member_ids@[k]]).roles@,
                ).contains(role_id) by {
                    if self.member_ids@[k] == id {
                    } else {
                        assert(self.members@[self.member_ids@[k]]
                            == before[self.member_ids@[k]]);
                    }
                }
                assert forall|k: int, m: u64|
                    0 <= k < i + 1 && m != role_id implies #[trigger] role_values(
                    self.members@[self.member_ids@[k]].roles@,
                ).contains(m) == role_values(
                    old(self).members@[self.member_ids@[k]].roles@,
                ).contains(m) by {
                    if self.member_ids@[k] == id {
                        assert(k == i) by {
                            if k < i {
                                assert(self.member_ids@[k] != self.member_ids@[i as int]);
                            }
                        }
                    } else {
                        assert(self.members@[self.member_ids@[k]]
                            == before[self.member_ids@[k]]);
                    }
                }
            }
            i = i + 1;
        }
        proof {
            assert forall|g: u64|
                self.members@.contains_key(g) implies !role_values(
                (#[trigger] self.members@[g]).roles@,
            ).contains(role_id) by {
                assert(self.member_ids@.contains(g));
                let k = choose|k: int|
                    0 <= k < self.member_ids@.len() && self.member_ids@[k] == g;
            }
            assert forall|g: u64, m: u64|
                self.members@.contains_key(g) && m != role_id implies #[trigger] role_values(
                self.members@[g].roles@,
            ).contains(m) == role_values(old(self).members@[g].roles@).contains(m) by {
                assert(self.member_ids@.contains(g));
                let k = choose|k: int|
                    0 <= k < self.member_ids@.len() && self.member_ids@[k] == g;
            }
        }
    }
}


/// The contents of a channel map.
pub open spec fn channels_view(m: Map<u64, Channel>) -> Map<u64, ChannelV> {
    Map::new(|k: u64| m.dom().contains(k), |k: u64| m[k]@)
}

/// The contents of a role map.
pub open spec fn roles_view(m: Map<u64, Role>) -> Map<u64, RoleV> {
    Map::new(|k: u64| m.dom().contains(k), |k: u64| m[k]@)
}

/// The contents of a member map.
pub open spec fn members_view(m: Map<u64, Member>) -> Map<u64, MemberV> {
    Map::new(|k: u64| m.dom().contains(k), |k: u64| m[k]@)
}

/// The channel map denoted by a channel list; a later entry with the same id
/// wins.
pub open spec fn channels_map(cs: Seq<ChannelV>) -> Map<u64, ChannelV>
    decreases cs.len(),
{
    if cs.len() == 0 {
        Map::empty()
    } else {
        channels_map(cs.drop_last()).insert(cs.last().id, cs.last())
    }
}

/// The role map denoted by a role list; a later entry with the same id wins.
pub open spec fn roles_map(rs: Seq<RoleV>) -> Map<u64, RoleV>
    decreases rs.len(),
{
    if rs.len() == 0 {
        Map::empty()
    } else {
        roles_map(rs.drop_last()).insert(rs.last().id, rs.last())
    }
}

/// The member map after merging a wire member list: each member with a user
/// is upserted under its user id, in list order.
pub open spec fn merge_members(m: Map<u64, MemberV>, ms: Seq<MemberV>) -> Map<u64, MemberV>
    decreases ms.len(),
{
    if ms.len() == 0 {
        m
    } else {
        let prev = merge_members(m, ms.drop_last());
        match ms.last().user {
            Some(u) => prev.insert(u.id, ms.last()),
            None => prev,
        }
    }
}

impl Guild {
    /// A fresh projection, before the initial guild payload is applied.
    pub fn new(id: Snowflake, user_id: Snowflake) -> (r: Guild)
        ensures
            r.wf(),
            r.id == id,
            r.user_id == user_id,
            r.name@ == Seq::<char>::empty(),
            !r.available,
            r.member_count == 0,
            r.channels@ =~= Map::<u64, Channel>::empty(),
            r.roles@ =~= Map::<u64, Role>::empty(),
            r.members@ =~= Map::<u64, Member>::empty(),
            r.commands@.len() == 0,
    {
        let r = Guild {
            id,
            user_id,
            name: String::new(),
            available: false,
            member_count: 0,
            channels: HashMap::new(),
            roles: HashMap::new(),
            members: HashMap::new(),
            member_ids: Vec::new(),
            commands: Vec::new(),
        };
        proof {
            assert(r.channels@ =~= Map::<u64, Channel>::empty());
            assert(r.roles@ =~= Map::<u64, Role>::empty());
            assert(r.members@ =~= Map::<u64, Member>::empty());
        }
        r
    }

    /// Applies a full guild payload: the name, channel map and role map are
    /// replaced wholesale; members are merged insert-only so a later member
    /// chunk can fill the gaps. Returns true when the member-count hint
    /// exceeds the members held, so the caller should request the full list.
    pub fn update_from(&mut self, g: &GuildPayload) -> (request_members: bool)
        requires
            old(self).wf(),
        ensures
            final(self).wf(),
            final(self).name@ == g.name@,
            final(self).available == !g.unavailable,
            final(self).id == old(self).id,
            final(self).user_id == old(self).user_id,
            final(self).commands == old(self).commands,
            channels_view(final(self).channels@) == channels_map(
                g.channels@.map_values(|c: Channel| c@),
            ),
            roles_view(final(self).roles@) == roles_map(g.roles@.map_values(|x: Role| x@)),
            members_view(final(self).members@) == merge_members(
                members_view(old(self).members@),
                g.members@.map_values(|m: Member| m@),
            ),
            final(self).member_count == (match g.member_count {
                Some(c) => c,
                None => 0,
            }),
            request_members == (final(self).member_count > final(self).members@.len()),
    {
        self.name = clone_string(&g.name);
        self.available = !g.unavailable;

        let ghost cviews = g.channels@.map_values(|c: Channel| c@);
        let mut channels: HashMap<u64, Channel> = HashMap::new();
        let mut i: usize = 0;
        proof {
            assert(channels_view(channels@) =~= channels_map(cviews.take(0)));
        }
        while i < g.channels.len()
            invariant
                0 <= i <= g.channels@.len(),
                cviews == g.channels@.map_values(|c: Channel| c@),
                channels_view(channels@) == channels_map(cviews.take(i as int)),
            decreases g.channels@.len() - i,
        {
            proof {
                assert(cviews.take(i + 1).drop_last() =~= cviews.take(i as int));
                assert(cviews.take(i + 1).last() == cviews[i as int]);
            }
            let c = clone_channel(&g.channels[i]);
            proof {
                assert(c@ == cviews[i as int]);
            }
            channels.insert(c.id.value, c);
            proof {
                assert(channels_view(channels@) =~= channels_map(cviews.take(i + 1)));
            }
            i = i + 1;
        }
        proof {
            assert(cviews.take(i as int) =~= cviews);
        }
        self.channels = channels;

        let ghost rviews = g.roles@.map_values(|x: Role| x@);
        let mut roles: HashMap<u64, Role> = HashMap::new();
        let mut k: usize = 0;
        proof {
            assert(roles_view(roles@) =~= roles_map(rviews.take(0)));
        }
        while k < g.roles.len()
            invariant
                0 <= k <= g.roles@.len(),
                rviews == g.roles@.map_values(|x: Role| x@),
                roles_view(roles@) == roles_map(rviews.take(k as int)),
            decreases g.roles@.len() - k,
        {
            proof {
                assert(rviews.take(k + 1).drop_last() =~= rviews.take(k as int));
                assert(rviews.take(k + 1).last() == rviews[k as int]);
            }
            let x = clone_role(&g.roles[k]);
            proof {
                assert(x@ == rviews[k as int]);
            }
            roles.insert(x.id.value, x);
            proof {
                assert(roles_view(roles@) =~= roles_map(rviews.take(k + 1)));
            }
            k = k + 1;
        }
        proof {
            assert(rviews.take(k as int) =~= rviews);
        }
        self.roles = roles;

        let ghost base = members_view(self.members@);
        let ghost mviews = g.members@.map_values(|m: Member| m@);
        let ghost chv = channels_view(self.channels@);
        let ghost rv = roles_view(self.roles@);
        let mut j: usize = 0;
        proof {
            assert(mviews.take(0) =~= Seq::<MemberV>::empty());
        }
        while j < g.members.len()
            invariant
                0 <= j <= g.members@.len(),
                self.wf(),
                mviews == g.members@.map_values(|m: Member| m@),
                members_view(self.members@) == merge_members(base, mviews.take(j as int)),
                self.name@ == g.name@,
                self.available == !g.unavailable,
                channels_view(self.channels@) == chv,
                roles_view(self.roles@) == rv,
                self.id == old(self).id,
                self.user_id == old(self).user_id,
                self.commands == old(self).commands,
            decreases g.members@.len() - j,
        {
            proof {
                assert(mviews.take(j + 1).drop_last() =~= mviews.take(j as int));
                assert(mviews.take(j + 1).last() == mviews[j as int]);
            }
            let m = clone_member(&g.members[j]);
            proof {
                assert(m@ == mviews[j as int]);
            }
            let ghost prev = members_view(self.members@);
            let ghost mg = m;
            self.put_member(m);
            proof {
                match mg.user {
                    Some(u) => {
                        assert(members_view(self.members@) =~= prev.insert(u.id.value, mg@));
                        assert(mg@.user matches Some(uv) && uv.id == u.id.value);
                    },
                    None => {
                        assert(members_view(self.members@) =~= prev);
                    },
                }
            }
            j = j + 1;
        }
        proof {
            assert(mviews.take(j as int) =~= mviews);
        }

        self.member_count = match g.member_count {
            Some(c) => c,
            None => 0,
        };
        let held = self.members.len();
        self.member_count > held as u64
    }
}


pub open spec fn opt_str_view(s: Option<String>) -> Option<Seq<char>> {
    match s {
        Some(x) => Some(x@),
        None => None,
    }
}

/// The relation a member diff must bear to the held member and the update:
/// each change field is present exactly when the corresponding field
/// differs, carrying the new value; of a changed role set the first
/// differing role id is reported, an addition before a removal.
pub open spec fn diff_matches(
    d: MemberDiff,
    held: MemberV,
    upd: crate::protocol::event::GuildMemberUpdateV,
) -> bool {
    &&& d.user_id == upd.user.id
    &&& (d.nickname is Some) == (held.nick != upd.nick)
    &&& (d.nickname matches Some(n) ==> opt_str_view(n) == upd.nick)
    &&& (d.username is Some) == (held.user matches Some(u) && u.username != upd.user.username)
    &&& (d.username matches Some(p) ==> (held.user matches Some(u) && p.0@ == u.username && p.1@
        == upd.user.username))
    &&& (d.discriminator is Some) == (held.user matches Some(u) && u.discriminator
        != upd.user.discriminator)
    &&& (d.discriminator matches Some(p) ==> (held.user matches Some(u) && p.0@
        == u.discriminator && p.1@ == upd.user.discriminator))
    &&& (d.avatar is Some) == (held.user matches Some(u) && u.avatar != upd.user.avatar)
    &&& (d.avatar matches Some(a) ==> opt_str_view(a) == upd.user.avatar)
    &&& (d.premium_since is Some) == (held.premium_since != upd.premium_since)
    &&& (d.premium_since matches Some(p) ==> opt_str_view(p) == upd.premium_since)
    &&& d.role_change == (match first_extra(upd.roles, held.roles) {
        Some(n) => Some(RoleDiff::Added(n)),
        None => match first_extra(held.roles, upd.roles) {
            Some(n) => Some(RoleDiff::Removed(n)),
            None => None,
        },
    })
}

/// The member held after an update is applied: the update's user, nickname,
/// roles and premium date, with the join date and voice flags kept.
pub open spec fn updated_member_view(
    held: MemberV,
    upd: crate::protocol::event::GuildMemberUpdateV,
) -> MemberV {
    MemberV {
        user: Some(upd.user),
        nick: upd.nick,
        roles: upd.roles,
        joined_at: held.joined_at,
        hoisted_role: held.hoisted_role,
        premium_since: upd.premium_since,
        deaf: held.deaf,
        mute: held.mute,
    }
}

/// Infers the fine-grained changes between a held member and an update.
fn diff_member(held: &Member, upd: &crate::protocol::event::GuildMemberUpdate) -> (r: MemberDiff)
    ensures
        diff_matches(r, held@, upd@),
{
    let user_id = upd.user.id.value;
    let nick_differs = match (&held.nick, &upd.nick) {
        (Some(a), Some(b)) => !crate::text::str_eq(a.as_str(), b.as_str()),
        (None, None) => false,
        _ => true,
    };
    let nickname = if nick_differs {
        Some(clone_opt_string(&upd.nick))
    } else {
        None
    };
    let mut username: Option<(String, String)> = None;
    let mut discriminator: Option<(String, String)> = None;
    let mut avatar: Option<Option<String>> = None;
    if let Some(u) = &held.user {
        if !crate::text::str_eq(u.username.as_str(), upd.user.username.as_str()) {
            username = Some((clone_string(&u.username), clone_string(&upd.user.username)));
        }
        if !crate::text::str_eq(u.discriminator.as_str(), upd.user.discriminator.as_str()) {
            discriminator = Some(
                (clone_string(&u.discriminator), clone_string(&upd.user.discriminator)),
            );
        }
        let avatar_differs = match (&u.avatar, &upd.user.avatar) {
            (Some(a), Some(b)) => !crate::text::str_eq(a.as_str(), b.as_str()),
            (None, None) => false,
            _ => true,
        };
        if avatar_differs {
            avatar = Some(clone_opt_string(&upd.user.avatar));
        }
    }
    let premium_differs = match (&held.premium_since, &upd.premium_since) {
        (Some(a), Some(b)) => !crate::text::str_eq(a.as_str(), b.as_str()),
        (None, None) => false,
        _ => true,
    };
    let premium_since = if premium_differs {
        Some(clone_opt_string(&upd.premium_since))
    } else {
        None
    };
    let role_change = match find_first_extra(&upd.roles, &held.roles) {
        Some(role_id) => Some(RoleDiff::Added(role_id)),
        None => match find_first_extra(&held.roles, &upd.roles) {
            Some(role_id) => Some(RoleDiff::Removed(role_id)),
            None => None,
        },
    };
    MemberDiff { user_id, nickname, username, discriminator, avatar, premium_since, role_change }
}

/// The command list after an upsert keyed by name.
pub open spec fn command_upserted(
    before: Seq<crate::protocol::records::ApplicationCommandV>,
    after: Seq<crate::protocol::records::ApplicationCommandV>,
    c: crate::protocol::records::ApplicationCommandV,
) -> bool {
    match command_index_from(before, c.name, 0) {
        Some(i) => after == before.update(i, c),
        None => after == before.push(c),
    }
}

/// The command list after a removal keyed by name.
pub open spec fn command_removed(
    before: Seq<crate::protocol::records::ApplicationCommandV>,
    after: Seq<crate::protocol::records::ApplicationCommandV>,
    name: Seq<char>,
) -> bool {
    match command_index_from(before, name, 0) {
        Some(i) => after == before.remove(i),
        None => after == before,
    }
}

/// What applying a full guild payload does: the name, availability, channel
/// map and role map are replaced wholesale from the payload, members are
/// merged insert-only, the member-count hint is recorded, and a member
/// request is asked for exactly when the hint exceeds the members held.
pub open spec fn guild_applied(
    before: Guild,
    after: Guild,
    g: &GuildPayload,
    request_members: bool,
) -> bool {
    &&& after.name@ == g.name@
    &&& after.available == !g.unavailable
    &&& channels_view(after.channels@) == channels_map(g.channels@.map_values(|c: Channel| c@))
    &&& roles_view(after.roles@) == roles_map(g.roles@.map_values(|x: Role| x@))
    &&& members_view(after.members@) == merge_members(
        members_view(before.members@),
        g.members@.map_values(|m: Member| m@),
    )
    &&& after.member_count == (match g.member_count {
        Some(c) => c,
        None => 0,
    })
    &&& request_members == (after.member_count > after.members@.len())
}

impl Guild {
    /// The highest position among the roles a member holds that still exist
    /// in the role map; zero when none does.
    pub fn member_role_position(&self, member: &Member) -> (r: u16)
        ensures
            forall|j: int|
                0 <= j < member.roles@.len() && self.roles@.contains_key(
                    (#[trigger] member.roles@[j]).value,
                ) ==> self.roles@[member.roles@[j].value].position <= r,
            r == 0 || exists|j: int|
                0 <= j < member.roles@.len() && self.roles@.contains_key(
                    (#[trigger] member.roles@[j]).value,
                ) && self.roles@[member.roles@[j].value].position == r,
    {
        let mut best: u16 = 0;
        let mut i: usize = 0;
        while i < member.roles.len()
            invariant
                0 <= i <= member.roles@.len(),
                forall|j: int|
                    0 <= j < i && self.roles@.contains_key(
                        (#[trigger] member.roles@[j]).value,
                    ) ==> self.roles@[member.roles@[j].value].position <= best,
                best == 0 || exists|j: int|
                    0 <= j < i && self.roles@.contains_key(
                        (#[trigger] member.roles@[j]).value,
                    ) && self.roles@[member.roles@[j].value].position == best,
            decreases member.roles@.len() - i,
        {
            match self.roles.get(&member.roles[i].value) {
                Some(x) => {
                    if x.position > best {
                        best = x.position;
                    }
                },
                None => {},
            }
            i = i + 1;
        }
        best
    }

    /// Applies one guild-scoped event to the projection and says what the
    /// caller must do with it.
    pub fn apply(&mut self, event: &Event) -> (r: ApplyOutcome)
        requires
            old(self).wf(),
        ensures
            final(self).wf(),
            event matches Event::GuildRoleDelete(rd) ==> (final(self).roles@ == old(
                self,
            ).roles@.remove(rd.role_id.value) && forall|g: u64|
                final(self).members@.contains_key(g) ==> !role_values(
                    (#[trigger] final(self).members@[g]).roles@,
                ).contains(rd.role_id.value)),
            event matches Event::GuildRoleCreate(rc) ==> roles_view(final(self).roles@)
                == roles_view(old(self).roles@).insert(rc.role.id.value, rc.role@),
            event matches Event::GuildRoleUpdate(ru) ==> roles_view(final(self).roles@)
                == roles_view(old(self).roles@).insert(ru.role.id.value, ru.role@),
            event matches Event::ChannelCreate(c) ==> channels_view(final(self).channels@)
                == channels_view(old(self).channels@).insert(c.id.value, c@),
            event matches Event::ChannelUpdate(c) ==> channels_view(final(self).channels@)
                == channels_view(old(self).channels@).insert(c.id.value, c@),
            event matches Event::ChannelDelete(c) ==> final(self).channels@ == old(
                self,
            ).channels@.remove(c.id.value),
            event matches Event::GuildMemberAdd(e) ==> (e.member.user matches Some(u)
                ==> members_view(final(self).members@) == members_view(
                old(self).members@,
            ).insert(u.id.value, e.member@)),
            event matches Event::GuildMemberRemove(e) ==> final(self).members@ == old(
                self,
            ).members@.remove(e.user.id.value),
            event matches Event::GuildMembersChunk(e) ==> members_view(final(self).members@)
                == merge_members(
                members_view(old(self).members@),
                e.members@.map_values(|m: Member| m@),
            ),
            event matches Event::GuildCreate(g) ==> guild_applied(
                *old(self),
                *final(self),
                g,
                r.request_members,
            ),
            event matches Event::GuildUpdate(g) ==> guild_applied(
                *old(self),
                *final(self),
                g,
                r.request_members,
            ),
            event matches Event::MessageCreate(m) ==> (*final(self) == *old(self) && r.forward
                == (m.webhook_id is None && m.message_type is Default)),
            event matches Event::MessageUpdate(m) ==> (*final(self) == *old(self) && r.forward
                == (m.webhook_id is None && m.message_type is Default)),
            event matches Event::GuildMemberUpdate(mu) ==> ({
                let uid = mu.user.id.value;
                if old(self).members@.contains_key(uid) {
                    &&& (r.member_diff matches Some(d) && diff_matches(
                        d,
                        old(self).members@[uid]@,
                        mu@,
                    ))
                    &&& members_view(final(self).members@) == members_view(
                        old(self).members@,
                    ).insert(uid, updated_member_view(old(self).members@[uid]@, mu@))
                } else {
                    final(self).members@ == old(self).members@ && r.member_diff is None
                }
            }),
            event matches Event::ApplicationCommandCreate(c) ==> command_upserted(
                commands_view(old(self).commands@),
                commands_view(final(self).commands@),
                c@,
            ),
            event matches Event::ApplicationCommandUpdate(c) ==> command_upserted(
                commands_view(old(self).commands@),
                commands_view(final(self).commands@),
                c@,
            ),
            event matches Event::ApplicationCommandDelete(c) ==> command_removed(
                commands_view(old(self).commands@),
                commands_view(final(self).commands@),
                c@.name,
            ),
            !(*event is GuildCreate || *event is GuildUpdate) ==> (final(self).id == old(
                self,
            ).id && final(self).user_id == old(self).user_id && final(self).name == old(
                self,
            ).name && final(self).available == old(self).available && final(self).member_count
                == old(self).member_count),
            !(*event is ChannelCreate || *event is ChannelUpdate || *event is ChannelDelete
                || *event is GuildCreate || *event is GuildUpdate) ==> final(self).channels
                == old(self).channels,
            !(*event is GuildRoleCreate || *event is GuildRoleUpdate || *event is GuildRoleDelete
                || *event is GuildCreate || *event is GuildUpdate) ==> final(self).roles == old(
                self,
            ).roles,
            !(*event is GuildMemberAdd || *event is GuildMemberRemove || *event
                is GuildMemberUpdate || *event is GuildMembersChunk || *event is GuildRoleDelete
                || *event is GuildCreate || *event is GuildUpdate) ==> final(self).members == old(
                self,
            ).members,
            !(*event is ApplicationCommandCreate || *event is ApplicationCommandUpdate || *event
                is ApplicationCommandDelete) ==> final(self).commands == old(self).commands,
            !(*event is GuildCreate || *event is GuildUpdate || *event is MessageCreate || *event
                is MessageUpdate) ==> r.forward,
            !(*event is GuildCreate || *event is GuildUpdate) ==> !r.request_members,
    {
        let mut outcome = ApplyOutcome { forward: true, request_members: false, member_diff: None };
        match event {
            Event::GuildCreate(g) => {
                outcome.request_members = self.update_from(g);
            },
            Event::GuildUpdate(g) => {
                outcome.request_members = self.update_from(g);
            },
            Event::GuildMemberAdd(e) => {
                self.put_member(clone_member(&e.member));
            },
            Event::GuildMemberRemove(e) => {
                self.remove_member(e.user.id.value);
            },
            Event::GuildMemberUpdate(mu) => {
                let held = match self.member(mu.user.id.value) {
                    Some(m) => Some(clone_member(m)),
                    None => None,
                };
                if let Some(held) = held {
                    proof {
                        assert(held@ == old(self).members@[mu.user.id.value]@);
                    }
                    outcome.member_diff = Some(diff_member(&held, mu));
                    let updated = Member {
                        user: Some(clone_user(&mu.user)),
                        nick: clone_opt_string(&mu.nick),
                        roles: clone_ids(&mu.roles),
                        joined_at: held.joined_at,
                        hoisted_role: held.hoisted_role,
                        premium_since: clone_opt_string(&mu.premium_since),
                        deaf: held.deaf,
                        mute: held.mute,
                    };
                    let ghost uv = updated@;
                    let ghost prev = members_view(self.members@);
                    proof {
                        assert(uv == updated_member_view(
                            old(self).members@[mu.user.id.value]@,
                            mu@,
                        ));
                        assert(updated.user matches Some(u) && u.id.value == mu.user.id.value);
                    }
                    self.put_member(updated);
                    proof {
                        assert(members_view(self.members@) =~= prev.insert(
                            mu.user.id.value,
                            uv,
                        ));
                    }
                }
            },
            Event::GuildMembersChunk(e) => {
                let ghost base = members_view(self.members@);
                let ghost mviews = e.members@.map_values(|m: Member| m@);
                let mut j: usize = 0;
                proof {
                    assert(mviews.take(0) =~= Seq::<MemberV>::empty());
                }
                while j < e.members.len()
                    invariant
                        0 <= j <= e.members@.len(),
                        self.wf(),
                        mviews == e.members@.map_values(|m: Member| m@),
                        members_view(self.members@) == merge_members(base, mviews.take(j as int)),
                        self.id == old(self).id,
                        self.user_id == old(self).user_id,
                        self.name == old(self).name,
                        self.available == old(self).available,
                        self.member_count == old(self).member_count,
                        self.channels == old(self).channels,
                        self.roles == old(self).roles,
                        self.commands == old(self).commands,
                    decreases e.members@.len() - j,
                {
                    proof {
                        assert(mviews.take(j + 1).drop_last() =~= mviews.take(j as int));
                        assert(mviews.take(j + 1).last() == mviews[j as int]);
                    }
                    let m = clone_member(&e.members[j]);
                    proof {
                        assert(m@ == mviews[j as int]);
                    }
                    let ghost prev = members_view(self.members@);
                    let ghost mg = m;
                    self.put_member(m);
                    proof {
                        match mg.user {
                            Some(u) => {
                                assert(members_view(self.members@) =~= prev.insert(
                                    u.id.value,
                                    mg@,
                                ));
                                assert(mg@.user matches Some(uv) && uv.id == u.id.value);
                            },
                            None => {
                                assert(members_view(self.members@) =~= prev);
                            },
                        }
                    }
                    j = j + 1;
                }
                proof {
                    assert(mviews.take(j as int) =~= mviews);
                }
            },
            Event::GuildRoleCreate(rc) => {
                let x = clone_role(&rc.role);
                let ghost prev = roles_view(self.roles@);
                self.roles.insert(x.id.value, x);
                proof {
                    assert(roles_view(self.roles@) =~= prev.insert(rc.role.id.value, rc.role@));
                }
            },
            Event::GuildRoleUpdate(ru) => {
                let x = clone_role(&ru.role);
                let ghost prev = roles_view(self.roles@);
                self.roles.insert(x.id.value, x);
                proof {
                    assert(roles_view(self.roles@) =~= prev.insert(ru.role.id.value, ru.role@));
                }
            },
            Event::GuildRoleDelete(rd) => {
                self.delete_role(rd.role_id.value);
            },
            Event::ChannelCreate(c) => {
                let x = clone_channel(c);
                let ghost prev = channels_view(self.channels@);
                self.channels.insert(x.id.value, x);
                proof {
                    assert(channels_view(self.channels@) =~= prev.insert(c.id.value, c@));
                }
            },
            Event::ChannelUpdate(c) => {
                let x = clone_channel(c);
                let ghost prev = channels_view(self.channels@);
                self.channels.insert(x.id.value, x);
                proof {
                    assert(channels_view(self.channels@) =~= prev.insert(c.id.value, c@));
                }
            },
            Event::ChannelDelete(c) => {
                self.channels.remove(&c.id.value);
            },
            Event::MessageCreate(m) => {
                let skip_webhook = match m.webhook_id {
                    Some(_) => true,
                    None => false,
                };
                outcome.forward = !skip_webhook && m.message_type.is_default();
            },
            Event::MessageUpdate(m) => {
                let skip_webhook = match m.webhook_id {
                    Some(_) => true,
                    None => false,
                };
                outcome.forward = !skip_webhook && m.message_type.is_default();
            },
            Event::ApplicationCommandCreate(c) => {
                self.upsert_command(clone_application_command(c));
            },
            Event::ApplicationCommandUpdate(c) => {
                self.upsert_command(clone_application_command(c));
            },
            Event::ApplicationCommandDelete(c) => {
                self.remove_command(c.name.as_str());
            },
            _ => {},
        }
        outcome
    }
}


/// The contents of the command list.
pub open spec fn commands_view(cs: Seq<ApplicationCommand>) -> Seq<
    crate::protocol::records::ApplicationCommandV,
> {
    cs.map_values(|c: ApplicationCommand| c@)
}

/// The index of the first command named `name`, searching from `from`.
pub open spec fn command_index_from(
    cs: Seq<crate::protocol::records::ApplicationCommandV>,
    name: Seq<char>,
    from: int,
) -> Option<int>
    recommends
        0 <= from <= cs.len(),
    decreases cs.len() - from,
{
    if from >= cs.len() {
        None
    } else if cs[from].name == name {
        Some(from)
    } else {
        command_index_from(cs, name, from + 1)
    }
}

/// While nothing before `at` matches, the search from the start equals the
/// search from `at`.
proof fn lemma_command_index_skip(
    cs: Seq<crate::protocol::records::ApplicationCommandV>,
    name: Seq<char>,
    at: int,
)
    requires
        0 <= at <= cs.len(),
        forall|k: int| 0 <= k < at ==> (#[trigger] cs[k]).name != name,
    ensures
        command_index_from(cs, name, 0) == command_index_from(cs, name, at),
    decreases at,
{
    if at > 0 {
        lemma_command_index_skip_step(cs, name, 0, at);
    }
}

proof fn lemma_command_index_skip_step(
    cs: Seq<crate::protocol::records::ApplicationCommandV>,
    name: Seq<char>,
    from: int,
    at: int,
)
    requires
        0 <= from <= at <= cs.len(),
        forall|k: int| from <= k < at ==> (#[trigger] cs[k]).name != name,
    ensures
        command_index_from(cs, name, from) == command_index_from(cs, name, at),
    decreases at - from,
{
    if from < at {
        lemma_command_index_skip_step(cs, name, from + 1, at);
    }
}

/// A found index names the command searched for.
proof fn lemma_command_index_found(
    cs: Seq<crate::protocol::records::ApplicationCommandV>,
    name: Seq<char>,
    from: int,
)
    requires
        0 <= from <= cs.len(),
    ensures
        command_index_from(cs, name, from) matches Some(i) ==> from <= i < cs.len()
            && cs[i].name == name,
    decreases cs.len() - from,
{
    if from < cs.len() && cs[from].name != name {
        lemma_command_index_found(cs, name, from + 1);
    }
}

fn clone_application_command(c: &ApplicationCommand) -> (r: ApplicationCommand)
    ensures
        r@ == c@,
        r.name@ == c.name@,
{
    ApplicationCommand {
        id: c.id,
        application_id: c.application_id,
        guild_id: c.guild_id,
        name: clone_string(&c.name),
        description: clone_opt_string(&c.description),
    }
}

impl Guild {
    /// The first command with this name, or none.
    pub fn command(&self, name: &str) -> (r: Option<&ApplicationCommand>)
        ensures
            match r {
                Some(c) => command_index_from(commands_view(self.commands@), name@, 0)
                    matches Some(i) && c@ == commands_view(self.commands@)[i],
                None => command_index_from(commands_view(self.commands@), name@, 0) is None,
            },
    {
        let ghost cv = commands_view(self.commands@);
        let mut i: usize = 0;
        while i < self.commands.len()
            invariant
                0 <= i <= self.commands@.len(),
                cv == commands_view(self.commands@),
                forall|k: int| 0 <= k < i ==> (#[trigger] cv[k]).name != name@,
            decreases self.commands@.len() - i,
        {
            if crate::text::str_eq(self.commands[i].name.as_str(), name) {
                proof {
                    assert(cv[i as int].name == name@);
                    lemma_command_index_skip(cv, name@, i as int);
                }
                return Some(&self.commands[i]);
            }
            proof {
                assert(cv[i as int].name != name@);
            }
            i = i + 1;
        }
        proof {
            lemma_command_index_skip(cv, name@, i as int);
        }
        None
    }

    /// Replaces the command list wholesale, as when the list is fetched.
    pub fn set_commands(&mut self, commands: Vec<ApplicationCommand>)
        requires
            old(self).wf(),
        ensures
            final(self).wf(),
            final(self).commands == commands,
            final(self).id == old(self).id,
            final(self).user_id == old(self).user_id,
            final(self).name == old(self).name,
            final(self).available == old(self).available,
            final(self).member_count == old(self).member_count,
            final(self).channels == old(self).channels,
            final(self).roles == old(self).roles,
            final(self).members == old(self).members,
    {
        self.commands = commands;
    }

    /// Upserts a command keyed by its name: the first entry with the name is
    /// replaced, else the command is appended.
    fn upsert_command(&mut self, c: ApplicationCommand)
        requires
            old(self).wf(),
        ensures
            final(self).wf(),
            final(self).id == old(self).id,
            final(self).user_id == old(self).user_id,
            final(self).name == old(self).name,
            final(self).available == old(self).available,
            final(self).member_count == old(self).member_count,
            final(self).channels == old(self).channels,
            final(self).roles == old(self).roles,
            final(self).members == old(self).members,
            final(self).member_ids == old(self).member_ids,
            match command_index_from(commands_view(old(self).commands@), c.name@, 0) {
                Some(i) => commands_view(final(self).commands@) == commands_view(
                    old(self).commands@,
                ).update(i, c@),
                None => commands_view(final(self).commands@) == commands_view(
                    old(self).commands@,
                ).push(c@),
            },
    {
        let ghost cv = commands_view(self.commands@);
        let mut i: usize = 0;
        while i < self.commands.len()
            invariant
                0 <= i <= self.commands@.len(),
                self == old(self),
                old(self).wf(),
                cv == commands_view(self.commands@),
                forall|k: int| 0 <= k < i ==> (#[trigger] cv[k]).name != c.name@,
            decreases self.commands@.len() - i,
        {
            if crate::text::str_eq(self.commands[i].name.as_str(), c.name.as_str()) {
                proof {
                    assert(cv[i as int].name == c.name@);
                    lemma_command_index_skip(cv, c.name@, i as int);
                }
                let mut updated: Vec<ApplicationCommand> = Vec::new();
                let mut k: usize = 0;
                let n = self.commands.len();
                while k < n
                    invariant
                        0 <= k <= n,
                        n == self.commands@.len(),
                        self == old(self),
                        old(self).wf(),
                        cv == commands_view(self.commands@),
                        i < n,
                        updated@.len() == k,
                        forall|j: int|
                            0 <= j < k && j != i ==> (#[trigger] updated@[j])@ == cv[j],
                        forall|j: int| 0 <= j < k && j == i ==> (#[trigger] updated@[j])@ == c@,
                    decreases n - k,
                {
                    let ghost prev = commands_view(updated@);
                    if k == i {
                        updated.push(clone_application_command(&c));
                        proof {
                            assert(commands_view(updated@) =~= prev.push(c@));
                        }
                    } else {
                        updated.push(clone_application_command(&self.commands[k]));
                        proof {
                            assert(cv[k as int] == self.commands@[k as int]@);
                            assert(commands_view(updated@) =~= prev.push(cv[k as int]));
                        }
                    }
                    k = k + 1;
                }
                proof {
                    assert(commands_view(updated@) =~= cv.update(i as int, c@));
                }
                self.commands = updated;
                proof {
                    assert forall|a: int, b: int|
                        0 <= a < b < self.member_ids@.len() implies self.member_ids@[a]
                        != self.member_ids@[b] by {
                        assert(old(self).member_ids@[a] != old(self).member_ids@[b]);
                    }
                    assert forall|g: u64|
                        self.members@.contains_key(g) <==> self.member_ids@.contains(g) by {
                        assert(old(self).members@.contains_key(g) <==> old(
                            self,
                        ).member_ids@.contains(g));
                    }
                }
                return ;
            }
            proof {
                assert(cv[i as int].name != c.name@);
            }
            i = i + 1;
        }
        proof {
            lemma_command_index_skip(cv, c.name@, i as int);
        }
        let ghost cval = c@;
        self.commands.push(c);
        proof {
            assert(commands_view(self.commands@) =~= cv.push(cval));
        }
    }

    /// Removes the first command with this name, if any.
    fn remove_command(&mut self, name: &str)
        requires
            old(self).wf(),
        ensures
            final(self).wf(),
            final(self).id == old(self).id,
            final(self).user_id == old(self).user_id,
            final(self).name == old(self).name,
            final(self).available == old(self).available,
            final(self).member_count == old(self).member_count,
            final(self).channels == old(self).channels,
            final(self).roles == old(self).roles,
            final(self).members == old(self).members,
            final(self).member_ids == old(self).member_ids,
            match command_index_from(commands_view(old(self).commands@), name@, 0) {
                Some(i) => commands_view(final(self).commands@) == commands_view(
                    old(self).commands@,
                ).remove(i),
                None => commands_view(final(self).commands@) == commands_view(
                    old(self).commands@,
                ),
            },
    {
        let ghost cv = commands_view(self.commands@);
        let mut i: usize = 0;
        while i < self.commands.len()
            invariant
                0 <= i <= self.commands@.len(),
                self == old(self),
                old(self).wf(),
                cv == commands_view(self.commands@),
                forall|k: int| 0 <= k < i ==> (#[trigger] cv[k]).name != name@,
            decreases self.commands@.len() - i,
        {
            if crate::text::str_eq(self.commands[i].name.as_str(), name) {
                proof {
                    assert(cv[i as int].name == name@);
                    lemma_command_index_skip(cv, name@, i as int);
                }
                let mut kept: Vec<ApplicationCommand> = Vec::new();
                let mut k: usize = 0;
                let n = self.commands.len();
                while k < n
                    invariant
                        0 <= k <= n,
                        n == self.commands@.len(),
                        self == old(self),
                        old(self).wf(),
                        cv == commands_view(self.commands@),
                        i < n,
                        k <= i ==> commands_view(kept@) == cv.take(k as int),
                        k > i ==> commands_view(kept@) == cv.take(i as int) + cv.subrange(
                            i + 1,
                            k as int,
                        ),
                    decreases n - k,
                {
                    let ghost prev = commands_view(kept@);
                    if k != i {
                        kept.push(clone_application_command(&self.commands[k]));
                        proof {
                            assert(cv[k as int] == self.commands@[k as int]@);
                            assert(commands_view(kept@) =~= prev.push(cv[k as int]));
                            if k < i {
                                assert(commands_view(kept@) =~= cv.take(k + 1));
                            } else {
                                assert(commands_view(kept@) =~= cv.take(i as int) + cv.subrange(
                                    i + 1,
                                    k + 1,
                                ));
                            }
                        }
                    } else {
                        proof {
                            assert(cv.take(i as int) + cv.subrange(i + 1, i + 1) =~= cv.take(
                                i as int,
                            ));
                        }
                    }
                    k = k + 1;
                }
                proof {
                    assert(commands_view(kept@) =~= cv.remove(i as int));
                }
                self.commands = kept;
                proof {
                    assert forall|a: int, b: int|
                        0 <= a < b < self.member_ids@.len() implies self.member_ids@[a]
                        != self.member_ids@[b] by {
                        assert(old(self).member_ids@[a] != old(self).member_ids@[b]);
                    }
                    assert forall|g: u64|
                        self.members@.contains_key(g) <==> self.member_ids@.contains(g) by {
                        assert(old(self).members@.contains_key(g) <==> old(
                            self,
                        ).member_ids@.contains(g));
                    }
                }
                return ;
            }
            proof {
                assert(cv[i as int].name != name@);
            }
            i = i + 1;
        }
        proof {
            lemma_command_index_skip(cv, name@, i as int);
        }
    }
}

} // verus!
