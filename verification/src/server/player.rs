//! Players known to the server: login with a unique nickname, connection status.

use vstd::prelude::*;
use crate::text::chars_of;

verus! {

/// Error of an empty nickname.
pub const NICKNAME_EMPTY: &'static str = "昵称不能为空";

/// Error of a nickname longer than twenty characters.
pub const NICKNAME_TOO_LONG: &'static str = "昵称不能超过20个字符";

/// Error of a nickname that another player already uses.
pub const NICKNAME_TAKEN: &'static str = "昵称已被占用";

/// Longest nickname, in characters.
pub const MAX_NICKNAME_CHARS: usize = 20;

/// Where a player is.
#[derive(Clone, Copy, Debug, PartialEq, Eq, Structural)]
pub enum PlayerStatus {
    /// Online, in the lobby.
    Online,
    /// Online, in a room.
    InRoom(u64),
    /// Connection lost; the room is kept.
    Disconnected(u64),
}

/// A logged-in player.
#[derive(Clone, Debug)]
pub struct Player {
    pub id: u64,
    pub nickname: String,
    pub status: PlayerStatus,
}

impl Player {
    /// A player in the lobby.
    pub fn new(id: u64, nickname: String) -> (p: Player)
        ensures
            p.id == id,
            p.nickname == nickname,
            p.status == PlayerStatus::Online,
    {
        Player { id, nickname, status: PlayerStatus::Online }
    }
}

/// Whether the first `n` entries of `s` all have an id other than `id`.
pub open spec fn id_absent_before(s: Seq<Player>, id: u64, n: int) -> bool {
    forall|j: int| 0 <= j < n ==> #[trigger] s[j].id != id
}

/// Whether some entry of `s` has the id `id`.
pub open spec fn holds_id(s: Seq<Player>, id: u64) -> bool {
    exists|i: int| 0 <= i < s.len() && #[trigger] s[i].id == id
}

/// The first position of `id` in `s` (meaningful when `holds_id(s, id)`).
pub open spec fn position_of(s: Seq<Player>, id: u64) -> int {
    choose|i: int| 0 <= i < s.len() && s[i].id == id && id_absent_before(s, id, i)
}

/// The first entry with the id `id`, if any.
pub open spec fn find_player(s: Seq<Player>, id: u64) -> Option<Player> {
    if holds_id(s, id) {
        Some(s[position_of(s, id)])
    } else {
        None
    }
}

/// The nickname of the first player with the id `id`, if any.
pub open spec fn nickname_of(s: Seq<Player>, id: u64) -> Option<Seq<char>> {
    match find_player(s, id) {
        Some(p) => Some(p.nickname@),
        None => None,
    }
}

/// `p` with its status replaced.
pub open spec fn with_status(p: Player, status: PlayerStatus) -> Player {
    Player { id: p.id, nickname: p.nickname, status }
}

/// The entries after setting the status of the player `id` (unchanged when absent).
pub open spec fn status_set(s: Seq<Player>, id: u64, status: PlayerStatus) -> Seq<Player> {
    if holds_id(s, id) {
        s.update(position_of(s, id), with_status(s[position_of(s, id)], status))
    } else {
        s
    }
}

/// The room that a disconnection of `id` keeps: that of a player in a room.
pub open spec fn disconnect_room(s: Seq<Player>, id: u64) -> Option<u64> {
    match find_player(s, id) {
        Some(p) => match p.status {
            PlayerStatus::InRoom(room) => Some(room),
            _ => None,
        },
        None => None,
    }
}

/// The entries after the player `id` lost its connection.
pub open spec fn disconnected(s: Seq<Player>, id: u64) -> Seq<Player> {
    match disconnect_room(s, id) {
        Some(room) => status_set(s, id, PlayerStatus::Disconnected(room)),
        None => s,
    }
}

/// The room that a reconnection of `id` returns to: that of a disconnected player.
pub open spec fn reconnect_room(s: Seq<Player>, id: u64) -> Option<u64> {
    match find_player(s, id) {
        Some(p) => match p.status {
            PlayerStatus::Disconnected(room) => Some(room),
            _ => None,
        },
        None => None,
    }
}

/// The entries after the player `id` came back.
pub open spec fn reconnected(s: Seq<Player>, id: u64) -> Seq<Player> {
    match reconnect_room(s, id) {
        Some(room) => status_set(s, id, PlayerStatus::InRoom(room)),
        None => s,
    }
}

/// Whether some entry of `s` has the nickname `name`.
pub open spec fn holds_nickname(s: Seq<Player>, name: Seq<char>) -> bool {
    exists|i: int| 0 <= i < s.len() && #[trigger] s[i].nickname@ == name
}

/// What the nickname check answers for `name`.
pub open spec fn spec_validate_nickname(name: Seq<char>) -> Result<(), &'static str> {
    if name.len() == 0 {
        Err(NICKNAME_EMPTY)
    } else if name.len() > 20 {
        Err(NICKNAME_TOO_LONG)
    } else {
        Ok(())
    }
}

/// What a login under `name` answers, given the players and the next id: the nickname
/// error, else the error of a nickname in use, else the next id.
pub open spec fn login_result(s: Seq<Player>, next_id: u64, name: Seq<char>) -> Result<u64, &'static str> {
    match spec_validate_nickname(name) {
        Err(e) => Err(e),
        Ok(_) => if holds_nickname(s, name) {
            Err(NICKNAME_TAKEN)
        } else {
            Ok(next_id)
        },
    }
}

/// The players of the server, each with a distinct id and a distinct nickname.
pub struct PlayerManager {
    players: Vec<Player>,
    next_id: u64,
}

impl PlayerManager {
    /// The players, in order of login.
    pub closed spec fn players(&self) -> Seq<Player> {
        self.players@
    }

    /// The id that the next login receives.
    pub closed spec fn next_id(&self) -> u64 {
        self.next_id
    }

    /// Ids are positive, below the next id and distinct; nicknames are distinct.
    pub open spec fn wf(&self) -> bool {
        &&& 1 <= self.next_id()
        &&& forall|i: int|
            0 <= i < self.players().len() ==> 1 <= #[trigger] self.players()[i].id < self.next_id()
        &&& forall|i: int, j: int|
            0 <= i < j < self.players().len() ==> #[trigger] self.players()[i].id
                != #[trigger] self.players()[j].id && self.players()[i].nickname@
                != self.players()[j].nickname@
    }

    /// No players; the first id is 1.
    pub fn new() -> (m: PlayerManager)
        ensures
            m.wf(),
            m.players() == Seq::<Player>::empty(),
            m.next_id() == 1,
    {
        PlayerManager { players: Vec::new(), next_id: 1 }
    }

    /// Checks a nickname: not empty, at most twenty characters.
    pub fn validate_nickname(nickname: &str) -> (r: Result<(), &'static str>)
        ensures
            r == spec_validate_nickname(nickname@),
    {
        let chars = chars_of(nickname);
        if chars.len() == 0 {
            return Err(NICKNAME_EMPTY);
        }
        if chars.len() > MAX_NICKNAME_CHARS {
            return Err(NICKNAME_TOO_LONG);
        }
        Ok(())
    }

    /// The position of the first player with the id `id`.
    fn find_index(&self, id: u64) -> (r: Option<usize>)
        ensures
            match r {
                Some(i) => holds_id(self.players(), id) && i == position_of(self.players(), id)
                    && i < self.players().len(),
                None => !holds_id(self.players(), id),
            },
    {
        let mut i: usize = 0;
        while i < self.players.len()
            invariant
                i <= self.players@.len(),
                id_absent_before(self.players@, id, i as int),
            decreases self.players@.len() - i,
        {
            if self.players[i].id == id {
                proof {
                    lemma_position_of(self.players@, id, i as int);
                }
                return Some(i);
            }
            i = i + 1;
        }
        None
    }

    /// Whether some player has the nickname `nickname`.
    fn nickname_taken(&self, nickname: &String) -> (r: bool)
        ensures
            r == holds_nickname(self.players(), nickname@),
    {
        let mut i: usize = 0;
        while i < self.players.len()
            invariant
                i <= self.players@.len(),
                forall|j: int| 0 <= j < i ==> #[trigger] self.players@[j].nickname@ != nickname@,
            decreases self.players@.len() - i,
        {
            if self.players[i].nickname == *nickname {
                return true;
            }
            i = i + 1;
        }
        false
    }

    /// Logs a player in under `nickname` and returns its new id; refuses an invalid nickname
    /// or one already in use.
    pub fn login(&mut self, nickname: String) -> (r: Result<u64, &'static str>)
        requires
            old(self).wf(),
            old(self).next_id() < u64::MAX,
        ensures
            final(self).wf(),
            r == login_result(old(self).players(), old(self).next_id(), nickname@),
            r is Err ==> final(self).players() == old(self).players() && final(self).next_id()
                == old(self).next_id(),
            r is Ok ==> {
                &&& !holds_id(old(self).players(), old(self).next_id())
                &&& final(self).players() == old(self).players().push(
                    Player::new_spec(old(self).next_id(), nickname),
                )
                &&& final(self).next_id() == old(self).next_id() + 1
            },
    {
        if let Err(e) = Self::validate_nickname(nickname.as_str()) {
            return Err(e);
        }
        if self.nickname_taken(&nickname) {
            return Err(NICKNAME_TAKEN);
        }
        let id = self.next_id;
        self.next_id = self.next_id + 1;
        let player = Player::new(id, nickname);
        self.players.push(player);
        proof {
            let s = self.players@;
            assert(forall|i: int| 0 <= i < s.len() - 1 ==> s[i] == old(self).players@[i]);
        }
        Ok(id)
    }

    /// Sets the status of the player at position `i`.
    fn set_status_at(&mut self, i: usize, status: PlayerStatus)
        requires
            i < old(self).players().len(),
        ensures
            final(self).players() == old(self).players().update(
                i as int,
                with_status(old(self).players()[i as int], status),
            ),
            final(self).next_id() == old(self).next_id(),
    {
        let mut p = self.players.remove(i);
        p.status = status;
        self.players.insert(i, p);
        proof {
            assert(self.players@ =~= old(self).players@.update(
                i as int,
                with_status(old(self).players@[i as int], status),
            ));
        }
    }

    /// Marks a player in a room as disconnected and returns the room kept for it.
    pub fn disconnect(&mut self, player_id: u64) -> (r: Option<u64>)
        requires
            old(self).wf(),
        ensures
            final(self).wf(),
            r == disconnect_room(old(self).players(), player_id),
            final(self).players() == disconnected(old(self).players(), player_id),
            final(self).next_id() == old(self).next_id(),
    {
        match self.find_index(player_id) {
            Some(i) => match self.players[i].status {
                PlayerStatus::InRoom(room_id) => {
                    self.set_status_at(i, PlayerStatus::Disconnected(room_id));
                    proof {
                        lemma_status_keeps_wf(*old(self), *self, i as int);
                    }
                    Some(room_id)
                },
                _ => None,
            },
            None => None,
        }
    }

    /// Brings a disconnected player back into its room and returns that room.
    pub fn reconnect(&mut self, player_id: u64) -> (r: Option<u64>)
        requires
            old(self).wf(),
        ensures
            final(self).wf(),
            r == reconnect_room(old(self).players(), player_id),
            final(self).players() == reconnected(old(self).players(), player_id),
            final(self).next_id() == old(self).next_id(),
    {
        match self.find_index(player_id) {
            Some(i) => match self.players[i].status {
                PlayerStatus::Disconnected(room_id) => {
                    self.set_status_at(i, PlayerStatus::InRoom(room_id));
                    proof {
                        lemma_status_keeps_wf(*old(self), *self, i as int);
                    }
                    Some(room_id)
                },
                _ => None,
            },
            None => None,
        }
    }

    /// Removes a player for good and returns it.
    pub fn remove(&mut self, player_id: u64) -> (r: Option<Player>)
        requires
            old(self).wf(),
        ensures
            final(self).wf(),
            r == find_player(old(self).players(), player_id),
            final(self).players() == (if holds_id(old(self).players(), player_id) {
                old(self).players().remove(position_of(old(self).players(), player_id))
            } else {
                old(self).players()
            }),
            final(self).next_id() == old(self).next_id(),
    {
        match self.find_index(player_id) {
            Some(i) => {
                let p = self.players.remove(i);
                proof {
                    let s = old(self).players@;
                    let t = self.players@;
                    assert forall|a: int, b: int| 0 <= a < b < t.len() implies #[trigger] t[a].id
                        != #[trigger] t[b].id && t[a].nickname@ != t[b].nickname@ by {
                        let a0 = if a < i { a } else { a + 1 };
                        let b0 = if b < i { b } else { b + 1 };
                        assert(t[a] == s[a0] && t[b] == s[b0]);
                    }
                    assert forall|a: int| 0 <= a < t.len() implies 1 <= #[trigger] t[a].id
                        < self.next_id by {
                        let a0 = if a < i { a } else { a + 1 };
                        assert(t[a] == s[a0]);
                    }
                }
                Some(p)
            },
            None => None,
        }
    }

    /// The player with the id `player_id`.
    pub fn get(&self, player_id: u64) -> (r: Option<&Player>)
        ensures
            match r {
                Some(p) => find_player(self.players(), player_id) == Some(*p),
                None => find_player(self.players(), player_id) is None,
            },
    {
        match self.find_index(player_id) {
            Some(i) => Some(&self.players[i]),
            None => None,
        }
    }

    /// The player with the id `player_id`, to change in place. The manager stays well formed
    /// when the change keeps its id and nickname.
    pub fn get_mut(&mut self, player_id: u64) -> (r: Option<&mut Player>)
        ensures
            final(self).next_id() == old(self).next_id(),
            match r {
                Some(p) => holds_id(old(self).players(), player_id) && *p == old(self).players()[position_of(
                    old(self).players(),
                    player_id,
                )] && final(self).players() == old(self).players().update(
                    position_of(old(self).players(), player_id),
                    *final(p),
                ),
                None => !holds_id(old(self).players(), player_id) && final(self).players() == old(
                    self,
                ).players(),
            },
    {
        match self.find_index(player_id) {
            Some(i) => Some(&mut self.players[i]),
            None => None,
        }
    }

    /// Sets the status of the player `player_id`; does nothing when there is none.
    pub fn set_status(&mut self, player_id: u64, status: PlayerStatus)
        requires
            old(self).wf(),
        ensures
            final(self).wf(),
            final(self).players() == status_set(old(self).players(), player_id, status),
            final(self).next_id() == old(self).next_id(),
    {
        if let Some(i) = self.find_index(player_id) {
            self.set_status_at(i, status);
            proof {
                lemma_status_keeps_wf(*old(self), *self, i as int);
            }
        }
    }

    /// The nickname of the player `player_id`.
    pub fn get_nickname(&self, player_id: u64) -> (r: Option<&str>)
        ensures
            match r {
                Some(name) => nickname_of(self.players(), player_id) == Some(name@),
                None => nickname_of(self.players(), player_id) is None,
            },
    {
        match self.find_index(player_id) {
            Some(i) => Some(self.players[i].nickname.as_str()),
            None => None,
        }
    }

    /// Whether a player has the id `player_id`.
    pub fn player_exists(&self, player_id: u64) -> (r: bool)
        ensures
            r == holds_id(self.players(), player_id),
    {
        self.find_index(player_id).is_some()
    }

    /// Whether another id can be issued (the counter has not reached its end).
    pub fn can_issue_id(&self) -> (r: bool)
        ensures
            r == (self.next_id() < u64::MAX),
    {
        self.next_id < u64::MAX
    }

    /// The number of players.
    pub fn online_count(&self) -> (r: usize)
        ensures
            r == self.players().len(),
    {
        self.players.len()
    }
}

impl Player {
    /// The player that `new` makes.
    pub open spec fn new_spec(id: u64, nickname: String) -> Player {
        Player { id, nickname, status: PlayerStatus::Online }
    }
}

impl Default for PlayerManager {
    fn default() -> (m: PlayerManager)
        ensures
            m.wf(),
            m.players() == Seq::<Player>::empty(),
            m.next_id() == 1,
    {
        PlayerManager::new()
    }
}

/// The entry found by the search is the first one with that id.
proof fn lemma_position_of(s: Seq<Player>, id: u64, i: int)
    requires
        0 <= i < s.len(),
        s[i].id == id,
        id_absent_before(s, id, i),
    ensures
        holds_id(s, id),
        position_of(s, id) == i,
{
    let k = position_of(s, id);
    assert(0 <= k < s.len() && s[k].id == id && id_absent_before(s, id, k));
    if k < i {
        assert(s[k].id != id);
    } else if k > i {
        assert(s[i].id != id);
    }
}

/// When an id occurs, a first occurrence exists, so `position_of` finds it.
proof fn lemma_first_position(s: Seq<Player>, id: u64, k: int)
    requires
        0 <= k < s.len(),
        s[k].id == id,
    ensures
        holds_id(s, id),
        0 <= position_of(s, id) < s.len(),
        s[position_of(s, id)].id == id,
        id_absent_before(s, id, position_of(s, id)),
    decreases k,
{
    if id_absent_before(s, id, k) {
        lemma_position_of(s, id, k);
    } else {
        let j = choose|j: int| 0 <= j < k && s[j].id == id;
        lemma_first_position(s, id, j);
    }
}

/// Changing one player's status keeps ids and nicknames as they were.
proof fn lemma_status_keeps_wf(before: PlayerManager, after: PlayerManager, i: int)
    requires
        before.wf(),
        0 <= i < before.players().len(),
        after.players() == before.players().update(i, with_status(before.players()[i], after.players()[i].status)),
        after.next_id() == before.next_id(),
    ensures
        after.wf(),
{
    let s = before.players();
    let t = after.players();
    assert forall|a: int| 0 <= a < t.len() implies t[a].id == s[a].id && t[a].nickname@
        == s[a].nickname@ by {
        if a == i {
        }
    }
}

/// Reconnecting a player right after its disconnection gives back the same room and the same
/// players: the disconnection kept everything the reconnection needs.
pub proof fn law_reconnect_undoes_disconnect(m: PlayerManager, player_id: u64)
    requires
        m.wf(),
        disconnect_room(m.players(), player_id) is Some,
    ensures
        reconnect_room(disconnected(m.players(), player_id), player_id) == disconnect_room(
            m.players(),
            player_id,
        ),
        reconnected(disconnected(m.players(), player_id), player_id) == m.players(),
{
    let s = m.players();
    let i = position_of(s, player_id);
    let room = disconnect_room(s, player_id)->0;
    let k = choose|k: int| 0 <= k < s.len() && s[k].id == player_id;
    lemma_first_position(s, player_id, k);
    assert(0 <= i < s.len() && s[i].id == player_id && id_absent_before(s, player_id, i));
    let t = disconnected(s, player_id);
    assert(t == s.update(i, with_status(s[i], PlayerStatus::Disconnected(room))));
    assert(id_absent_before(t, player_id, i));
    lemma_position_of(t, player_id, i);
    let u = reconnected(t, player_id);
    assert(u == t.update(i, with_status(t[i], PlayerStatus::InRoom(room))));
    assert(s[i].status == PlayerStatus::InRoom(room));
    assert(u =~= s);
}

} // verus!
