//! Directory of the players that the child process has reported.

use crate::action::GetPlayerPayload;
use vstd::hash_map::StringHashMap;
use vstd::prelude::*;
use vstd::string::*;

verus! {

/// Identity of one connected player.
#[derive(Debug, PartialEq, Eq)]
pub struct PlayerInfo {
    pub name: String,
    pub device_id: String,
    pub xuid: String,
}

/// What a `PlayerInfo` holds, as plain texts.
pub struct PlayerRecord {
    pub name: Seq<char>,
    pub device_id: Seq<char>,
    pub xuid: Seq<char>,
}

impl View for PlayerInfo {
    type V = PlayerRecord;

    open spec fn view(&self) -> PlayerRecord {
        PlayerRecord { name: self.name@, device_id: self.device_id@, xuid: self.xuid@ }
    }
}

/// Players by name. A later entry for a name replaces the earlier one;
/// nothing is ever dropped.
pub struct PlayerCache {
    players: StringHashMap<PlayerInfo>,
}

impl View for PlayerCache {
    type V = Map<Seq<char>, PlayerRecord>;

    closed spec fn view(&self) -> Map<Seq<char>, PlayerRecord> {
        self.players@.map_values(|info: PlayerInfo| info@)
    }
}

impl PlayerCache {
    /// Every entry is filed under the name that it carries.
    #[verifier::type_invariant]
    closed spec fn filed_by_name(&self) -> bool {
        forall|name: Seq<char>| #[trigger]
            self.players@.contains_key(name) ==> self.players@[name].name@ == name
    }

    /// A directory without entries.
    pub fn new() -> (cache: Self)
        ensures
            cache@ == Map::<Seq<char>, PlayerRecord>::empty(),
    {
        let cache = PlayerCache { players: StringHashMap::new() };
        assert(cache@ =~= Map::<Seq<char>, PlayerRecord>::empty());
        cache
    }

    /// Files the player under `name`, in place of any earlier entry for it.
    pub fn add_player(&mut self, name: &str, device_id: &str, xuid: &str)
        ensures
            final(self)@ == with_player(old(self)@, name@, device_id@, xuid@),
    {
        proof {
            use_type_invariant(&*self);
        }
        let player_info = PlayerInfo {
            name: String::from_str(name),
            device_id: String::from_str(device_id),
            xuid: String::from_str(xuid),
        };
        let mut players = StringHashMap::new();
        std::mem::swap(&mut players, &mut self.players);
        players.insert(String::from_str(name), player_info);
        self.players = players;
        assert(self@ =~= with_player(old(self)@, name@, device_id@, xuid@));
    }

    /// The entry filed under exactly `name`, if there is one.
    pub fn lookup(&self, name: &str) -> (found: Option<&PlayerInfo>)
        ensures
            match found {
                Some(info) => self@.contains_key(name@) && info@ == self@[name@] && info.name@
                    == name@,
                None => !self@.contains_key(name@),
            },
    {
        proof {
            use_type_invariant(self);
        }
        self.players.get(name)
    }

    /// The entry filed under exactly the name that `name` asks for.
    pub fn get_player_info(&self, name: &GetPlayerPayload) -> (found: Option<&PlayerInfo>)
        ensures
            match found {
                Some(info) => self@.contains_key(name.name@) && info@ == self@[name.name@]
                    && info.name@ == name.name@,
                None => !self@.contains_key(name.name@),
            },
    {
        self.lookup(name.name.as_str())
    }
}

/// The directory after `add_player` has filed an entry.
pub open spec fn with_player(
    directory: Map<Seq<char>, PlayerRecord>,
    name: Seq<char>,
    device_id: Seq<char>,
    xuid: Seq<char>,
) -> Map<Seq<char>, PlayerRecord> {
    directory.insert(name, PlayerRecord { name, device_id, xuid })
}

/// An entry that was just added is found under its name, as it was given,
/// and every other name finds what it found before.
pub proof fn lemma_lookup_after_add(
    before: Map<Seq<char>, PlayerRecord>,
    name: Seq<char>,
    device_id: Seq<char>,
    xuid: Seq<char>,
    other: Seq<char>,
)
    requires
        other != name,
    ensures
        with_player(before, name, device_id, xuid).contains_key(name),
        with_player(before, name, device_id, xuid)[name] == (PlayerRecord {
            name,
            device_id,
            xuid,
        }),
        with_player(before, name, device_id, xuid).contains_key(other) == before.contains_key(
            other,
        ),
        before.contains_key(other) ==> with_player(before, name, device_id, xuid)[other]
            == before[other],
{
}

/// Of two entries added under one name the second is the one that stays: the
/// directory is as if the first had never been added.
pub proof fn lemma_last_write_wins(
    before: Map<Seq<char>, PlayerRecord>,
    name: Seq<char>,
    first_device: Seq<char>,
    first_xuid: Seq<char>,
    second_device: Seq<char>,
    second_xuid: Seq<char>,
)
    ensures
        with_player(
            with_player(before, name, first_device, first_xuid),
            name,
            second_device,
            second_xuid,
        ) == with_player(before, name, second_device, second_xuid),
        with_player(
            with_player(before, name, first_device, first_xuid),
            name,
            second_device,
            second_xuid,
        )[name] == (PlayerRecord { name, device_id: second_device, xuid: second_xuid }),
{
    assert(with_player(
        with_player(before, name, first_device, first_xuid),
        name,
        second_device,
        second_xuid,
    ) =~= with_player(before, name, second_device, second_xuid));
}

} // verus!
