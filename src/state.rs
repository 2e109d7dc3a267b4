//! The bot's shared in-process state, each piece as a service with its own
//! contract: the prefix cache, the command name lists, the image cache, and
//! the handler's one-time start-up switch.
use vstd::prelude::*;

use crate::command_utils::{allowed_commands, get_allowed_commands};
use crate::records::{Credentials, GifResult};
use crate::text::same_text;
use dashmap::DashMap;

verus! {


/// The gateway event handler's own state.
pub struct SerenityHandler {
    /// Whether the background tasks (guild pruning, expiry sweep, activity
    /// rotation) are still to be started.
    pub run_loop: bool,
}

impl SerenityHandler {
    pub fn new() -> (r: SerenityHandler)
        ensures
            r.run_loop,
    {
        SerenityHandler { run_loop: true }
    }

    /// Called each time the cache is ready; says whether the background tasks
    /// are to be started now, which holds the first time only.
    pub fn cache_ready(&mut self) -> (r: bool)
        ensures
            r == old(self).run_loop,
            !final(self).run_loop,
    {
        let r = self.run_loop;
        self.run_loop = false;
        r
    }
}

/// The bot's own user id.
#[derive(Clone, Copy, Debug, PartialEq, Eq, Structural)]
pub struct BotId(pub u64);

/// The credentials that commands may read.
pub struct PubCreds {
    pub tenor: String,
    pub default_prefix: String,
}

impl PubCreds {
    pub fn from_credentials(c: &Credentials) -> (r: PubCreds)
        ensures
            r.tenor@ == c.tenor_key@,
            r.default_prefix@ == c.default_prefix@,
    {
        PubCreds { tenor: c.tenor_key.clone(), default_prefix: c.default_prefix.clone() }
    }
}

/// Whether one of `names` reads `name`.
pub open spec fn names_contain(names: Seq<String>, name: Seq<char>) -> bool {
    exists|i: int| 0 <= i < names.len() && (#[trigger] names[i])@ == name
}

fn find_name(names: &Vec<String>, name: &str) -> (r: bool)
    ensures
        r == names_contain(names@, name@),
{
    let mut i: usize = 0;
    while i < names.len()
        invariant
            i <= names.len(),
            forall|j: int| 0 <= j < i ==> (#[trigger] names@[j])@ != name@,
        decreases names.len() - i,
    {
        if same_text(names[i].as_str(), name) {
            return true;
        }
        i = i + 1;
    }
    false
}

/// The names of all built-in commands, aliases included.
pub struct CommandNameMap {
    pub names: Vec<String>,
}

impl CommandNameMap {
    /// Whether `name` is taken by a built-in command (and so cannot name a
    /// custom one).
    pub fn contains(&self, name: &str) -> (r: bool)
        ensures
            r == names_contain(self.names@, name@),
    {
        find_name(&self.names, name)
    }
}

/// The commands that still answer when the bot is called by mention, so that
/// a guild that lost track of its prefix can restore it.
pub struct EmergencyCommands {
    pub names: Vec<String>,
}

impl EmergencyCommands {
    pub fn new() -> (r: EmergencyCommands)
        ensures
            r.names@.len() == allowed_commands().len(),
            forall|i: int| 0 <= i < r.names@.len() ==> (#[trigger] r.names@[i])@ == allowed_commands()[i],
    {
        EmergencyCommands { names: get_allowed_commands() }
    }

    /// Whether a command may run: always when called by prefix, and only if it
    /// is an emergency command when called by mention.
    pub fn permits(&self, by_mention: bool, name: &str) -> (r: bool)
        ensures
            r == (!by_mention || names_contain(self.names@, name@)),
    {
        if by_mention {
            find_name(&self.names, name)
        } else {
            true
        }
    }
}

/// The outside concurrent map that the caches keep their entries in.
#[verifier::external_type_specification]
#[verifier::external_body]
#[verifier::reject_recursive_types(K)]
#[verifier::reject_recursive_types(V)]
#[verifier::reject_recursive_types(S)]
pub struct ExDashMap<K, V, S>(dashmap::DashMap<K, V, S>);

/// A table of guild prefixes.
pub type PrefixTable = DashMap<u64, String>;

/// A table of the last image per guild and search.
pub type ImageTable = DashMap<(u64, String), String>;

/// What a prefix table holds: each guild's prefix.
pub uninterp spec fn prefix_table(m: DashMap<u64, String>) -> Map<u64, Seq<char>>;

/// What an image table holds: each (guild, search) pair's last image.
pub uninterp spec fn image_table(m: DashMap<(u64, String), String>) -> Map<(u64, Seq<char>), Seq<char>>;

pub open spec fn no_prefixes() -> Map<u64, Seq<char>> {
    Map::empty()
}

pub open spec fn no_images() -> Map<(u64, Seq<char>), Seq<char>> {
    Map::empty()
}

/// Relies on `DashMap::new`: a new map is empty.
#[verifier::external_body]
fn prefix_table_new() -> (r: PrefixTable)
    ensures
        prefix_table(r) == no_prefixes(),
{
    DashMap::new()
}

/// Relies on `DashMap::insert`: afterwards the key maps to the value, and the
/// other keys are as before.
#[verifier::external_body]
fn prefix_table_insert(m: &mut DashMap<u64, String>, k: u64, v: String)
    ensures
        prefix_table(*final(m)) == prefix_table(*old(m)).insert(k, v@),
{
    m.insert(k, v);
}

/// Relies on `DashMap::remove`: afterwards the key is absent, and the other
/// keys are as before.
#[verifier::external_body]
fn prefix_table_remove(m: &mut DashMap<u64, String>, k: u64)
    ensures
        prefix_table(*final(m)) == prefix_table(*old(m)).remove(k),
{
    m.remove(&k);
}

/// Relies on `DashMap::get`: the value under the key, if any (copied out of
/// the guard it is handed out in).
#[verifier::external_body]
fn prefix_table_get(m: &DashMap<u64, String>, k: u64) -> (r: Option<String>)
    ensures
        match r {
            Some(v) => prefix_table(*m).contains_key(k) && v@ == prefix_table(*m)[k],
            None => !prefix_table(*m).contains_key(k),
        },
{
    m.get(&k).map(|g| g.value().clone())
}

/// Relies on `DashMap::new`: a new map is empty.
#[verifier::external_body]
fn image_table_new() -> (r: ImageTable)
    ensures
        image_table(r) == no_images(),
{
    DashMap::new()
}

/// Relies on `DashMap::insert`: afterwards the key maps to the value, and the
/// other keys are as before (keys are equal when their texts are).
#[verifier::external_body]
fn image_table_insert(m: &mut DashMap<(u64, String), String>, guild_id: u64, key: String, v: String)
    ensures
        image_table(*final(m)) == image_table(*old(m)).insert((guild_id, key@), v@),
{
    m.insert((guild_id, key), v);
}

/// Relies on `DashMap::get`: the value under the key, if any (copied out of
/// the guard it is handed out in).
#[verifier::external_body]
fn image_table_get(m: &DashMap<(u64, String), String>, guild_id: u64, key: &str) -> (r: Option<String>)
    ensures
        match r {
            Some(v) => image_table(*m).contains_key((guild_id, key@)) && v@ == image_table(*m)[(
                guild_id,
                key@,
            )],
            None => !image_table(*m).contains_key((guild_id, key@)),
        },
{
    m.get(&(guild_id, key.to_string())).map(|g| g.value().clone())
}

/// The custom prefix of each guild that has one.
pub struct PrefixMap {
    prefixes: DashMap<u64, String>,
}

impl View for PrefixMap {
    type V = Map<u64, Seq<char>>;

    closed spec fn view(&self) -> Map<u64, Seq<char>> {
        prefix_table(self.prefixes)
    }
}

impl PrefixMap {
    pub fn new() -> (r: PrefixMap)
        ensures
            r@ == Map::<u64, Seq<char>>::empty(),
    {
        PrefixMap { prefixes: prefix_table_new() }
    }

    /// Sets a guild's custom prefix.
    pub fn insert(&mut self, guild_id: u64, prefix: String)
        ensures
            final(self)@ == old(self)@.insert(guild_id, prefix@),
    {
        prefix_table_insert(&mut self.prefixes, guild_id, prefix);
    }

    /// Drops a guild's custom prefix, so that it falls back to the default.
    pub fn remove(&mut self, guild_id: u64)
        ensures
            final(self)@ == old(self)@.remove(guild_id),
    {
        prefix_table_remove(&mut self.prefixes, guild_id);
    }

    /// A guild's custom prefix, if it has one.
    pub fn get(&self, guild_id: u64) -> (r: Option<String>)
        ensures
            match r {
                Some(p) => self@.contains_key(guild_id) && p@ == self@[guild_id],
                None => !self@.contains_key(guild_id),
            },
    {
        prefix_table_get(&self.prefixes, guild_id)
    }

    /// The prefix that calls commands in a guild: its custom one, else the
    /// default.
    pub fn dynamic_prefix(&self, guild_id: u64, default_prefix: &str) -> (r: String)
        ensures
            r@ == if self@.contains_key(guild_id) {
                self@[guild_id]
            } else {
                default_prefix@
            },
    {
        match prefix_table_get(&self.prefixes, guild_id) {
            Some(p) => p,
            None => String::from_str(default_prefix),
        }
    }
}

/// Whether some guild the bot is in has the stored id `g`.
pub open spec fn guild_present(present: Seq<u64>, g: i64) -> bool {
    exists|j: int| 0 <= j < present.len() && present[j] as int == g as int
}

/// The stored guilds that the bot is no longer in: those the pruner deletes.
pub fn guild_pruner(stored: &Vec<i64>, present: &Vec<u64>) -> (r: Vec<i64>)
    ensures
        r@ == stored@.filter(|g: i64| !guild_present(present@, g)),
{
    let ghost keep = |g: i64| !guild_present(present@, g);
    let mut out: Vec<i64> = Vec::new();
    let mut i: usize = 0;
    proof {
        reveal(Seq::filter);
        assert(stored@.take(0) =~= Seq::<i64>::empty());
    }
    while i < stored.len()
        invariant
            i <= stored.len(),
            keep == (|g: i64| !guild_present(present@, g)),
            out@ == stored@.take(i as int).filter(keep),
        decreases stored.len() - i,
    {
        let g = stored[i];
        let mut found = false;
        let mut j: usize = 0;
        while j < present.len()
            invariant
                j <= present.len(),
                found == exists|k: int| 0 <= k < j && present@[k] as int == g as int,
            decreases present.len() - j,
        {
            if g >= 0 && present[j] == g as u64 {
                found = true;
            }
            j = j + 1;
        }
        proof {
            reveal(Seq::filter);
            assert(stored@.take(i + 1).drop_last() =~= stored@.take(i as int));
            assert(stored@.take(i + 1).last() == g);
        }
        if !found {
            out.push(g);
        }
        i = i + 1;
    }
    assert(stored@.take(i as int) =~= stored@);
    out
}


/// The prefixes that stored guild records give: each guild with a prefix set,
/// the later record winning.
pub open spec fn prefixes_of(rows: Seq<(i64, Option<String>)>) -> Map<u64, Seq<char>>
    decreases rows.len(),
{
    if rows.len() == 0 {
        Map::empty()
    } else {
        let m = prefixes_of(rows.drop_last());
        match rows.last().1 {
            Some(p) => m.insert(#[verifier::truncate] (rows.last().0 as u64), p@),
            None => m,
        }
    }
}

/// Builds the prefix cache from the stored guild records (guild id, prefix).
pub fn fetch_prefixes(rows: Vec<(i64, Option<String>)>) -> (r: PrefixMap)
    ensures
        r@ == prefixes_of(rows@),
{
    let ghost all = rows@;
    let mut map = PrefixMap::new();
    let mut i: usize = 0;
    let mut rest = rows;
    assert(all.len() == rest.len());
    assert(map@ =~= prefixes_of(all.take(0)));
    while rest.len() > 0
        invariant
            i + rest@.len() == all.len(),
            all.len() <= usize::MAX,
            rest@ == all.subrange(i as int, all.len() as int),
            map@ == prefixes_of(all.take(i as int)),
        decreases rest.len(),
    {
        let (g, prefix) = rest.remove(0);
        assert(all.take(i + 1).drop_last() =~= all.take(i as int));
        assert(all.take(i + 1).last() == all[i as int]);
        assert(all[i as int] == (g, prefix));
        match prefix {
            Some(p) => map.insert(#[verifier::truncate] (g as u64), p),
            None => {},
        }
        i = i + 1;
        assert(rest@ =~= all.subrange(i as int, all.len() as int));
    }
    assert(all.take(i as int) =~= all);
    map
}

/// Whether `i` is the first index of `gifs` whose page is `url`.
pub open spec fn first_with_url(gifs: Seq<GifResult>, url: Seq<char>, i: int) -> bool {
    &&& 0 <= i < gifs.len()
    &&& gifs[i].url@ == url
    &&& forall|j: int| 0 <= j < i ==> (#[trigger] gifs[j]).url@ != url
}

/// `after` is `gifs` without the first gif whose page is `cached`, if any.
pub open spec fn without_repeat(cached: Option<Seq<char>>, gifs: Seq<GifResult>, after: Seq<GifResult>) -> bool {
    &&& cached is None ==> after == gifs
    &&& cached is Some ==> (forall|i: int| first_with_url(gifs, cached->0, i) ==> after == gifs.remove(i))
    &&& cached is Some ==> ((forall|i: int| !first_with_url(gifs, cached->0, i)) ==> after == gifs)
}

/// The last image each guild was shown for each search, so that the next one
/// differs.
pub struct ReactionImageCache {
    images: DashMap<(u64, String), String>,
}

impl View for ReactionImageCache {
    type V = Map<(u64, Seq<char>), Seq<char>>;

    closed spec fn view(&self) -> Map<(u64, Seq<char>), Seq<char>> {
        image_table(self.images)
    }
}

/// The image last shown for `(guild_id, key)`, if any.
pub open spec fn cached_in(m: Map<(u64, Seq<char>), Seq<char>>, guild_id: u64, key: Seq<char>) -> Option<Seq<char>> {
    if m.contains_key((guild_id, key)) {
        Some(m[(guild_id, key)])
    } else {
        None
    }
}

impl ReactionImageCache {
    pub fn new() -> (r: ReactionImageCache)
        ensures
            r@ == Map::<(u64, Seq<char>), Seq<char>>::empty(),
    {
        ReactionImageCache { images: image_table_new() }
    }

    /// The image last shown for a search in a guild.
    pub fn get(&self, guild_id: u64, key: &str) -> (r: Option<String>)
        ensures
            match r {
                Some(u) => cached_in(self@, guild_id, key@) == Some(u@),
                None => cached_in(self@, guild_id, key@) is None,
            },
    {
        image_table_get(&self.images, guild_id, key)
    }

    /// Records the image shown for a search in a guild, in place of the one
    /// recorded before.
    pub fn add_to_cache(&mut self, guild_id: u64, key: String, url: String)
        ensures
            final(self)@ == old(self)@.insert((guild_id, key@), url@),
    {
        image_table_insert(&mut self.images, guild_id, key, url);
    }

    /// Removes from `gifs` the first one whose page is the image last shown
    /// for the search, so that the same image does not come twice in a row.
    pub fn check_image_cache(&self, guild_id: u64, search_key: &str, gifs: Vec<GifResult>) -> (r: Vec<GifResult>)
        ensures
            without_repeat(cached_in(self@, guild_id, search_key@), gifs@, r@),
    {
        let cached = match self.get(guild_id, search_key) {
            Some(u) => u,
            None => return gifs,
        };
        let ghost orig = gifs@;
        let mut list = gifs;
        let mut i: usize = 0;
        while i < list.len() && !same_text(list[i].url.as_str(), cached.as_str())
            invariant
                list@ == orig,
                i <= list@.len(),
                forall|j: int| 0 <= j < i ==> (#[trigger] list@[j]).url@ != cached@,
            decreases list.len() - i,
        {
            i = i + 1;
        }
        if i < list.len() {
            assert(first_with_url(orig, cached@, i as int));
            assert forall|k: int| first_with_url(orig, cached@, k) implies k == i by {
                if k > i {
                    assert(orig[i as int].url@ == cached@);
                }
            }
            list.remove(i);
            let ghost c = Some(cached@);
            assert(c->0 == cached@);
            assert(without_repeat(c, orig, list@));
        } else {
            assert forall|k: int| !first_with_url(orig, cached@, k) by {
                if 0 <= k < orig.len() {
                    assert(orig[k].url@ != cached@);
                }
            }
        }
        assert(without_repeat(Some(cached@), orig, list@));
        list
    }
}

} // verus!
