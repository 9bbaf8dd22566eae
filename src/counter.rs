//! Encounter counters as they are held in memory, and the list of them with
//! the one currently loaded.
use vstd::prelude::*;

verus! {

/// The id that stands for "no counter loaded", and for a count that could not be read.
pub const NO_COUNTER: i32 = -1;

/// One tracked Pokémon and its number of encounters so far.
#[derive(Debug, Clone)]
pub struct Pokemon {
    pub id: i32,
    pub name: String,
    pub counter: i32,
}

impl Pokemon {
    /// Replaces the count; id and name stay.
    pub fn update_counter(&mut self, new_counter: i32)
        ensures
            final(self).counter == new_counter,
            final(self).id == old(self).id,
            final(self).name == old(self).name,
    {
        self.counter = new_counter;
    }
}

/// The counters known to the application and the index of the loaded one. An
/// index past the end means that none is loaded.
#[derive(Debug)]
pub struct Counters {
    pub pokemons: Vec<Pokemon>,
    pub current_idx: usize,
}

impl Counters {
    /// Whether a counter is loaded.
    pub open spec fn has_current(self) -> bool {
        self.current_idx < self.pokemons@.len()
    }

    /// The loaded counter; meaningful only where `has_current` holds.
    pub open spec fn current(self) -> Pokemon {
        self.pokemons@[self.current_idx as int]
    }

    /// The given counters, the first of them loaded (if any).
    pub fn new(pokemons: Vec<Pokemon>) -> (r: Self)
        ensures
            r.pokemons@ == pokemons@,
            r.current_idx == 0,
    {
        Counters { pokemons, current_idx: 0 }
    }

    /// The loaded counter, or `None` where none is loaded.
    pub fn get_current(&self) -> (r: Option<&Pokemon>)
        ensures
            self.has_current() ==> r == Some(&self.current()),
            !self.has_current() ==> r.is_none(),
    {
        if self.current_idx < self.pokemons.len() {
            Some(&self.pokemons[self.current_idx])
        } else {
            None
        }
    }

    /// The id of the loaded counter, or `None` where none is loaded.
    pub fn current_id(&self) -> (r: Option<i32>)
        ensures
            self.has_current() ==> r == Some(self.current().id),
            !self.has_current() ==> r.is_none(),
    {
        if self.current_idx < self.pokemons.len() {
            Some(self.pokemons[self.current_idx].id)
        } else {
            None
        }
    }

    /// Loads the counter at `idx`; the counters themselves are unchanged.
    pub fn select(&mut self, idx: usize)
        ensures
            final(self).pokemons@ == old(self).pokemons@,
            final(self).current_idx == idx,
    {
        self.current_idx = idx;
    }

    /// Appends a newly created counter and loads it.
    pub fn add_loaded(&mut self, p: Pokemon)
        requires
            old(self).pokemons@.len() < usize::MAX,
        ensures
            final(self).pokemons@ == old(self).pokemons@.push(p),
            final(self).current_idx == old(self).pokemons@.len(),
            final(self).has_current(),
    {
        self.pokemons.push(p);
        self.current_idx = self.pokemons.len() - 1;
    }

    /// Sets the count of the loaded counter; does nothing where none is loaded.
    pub fn set_current_count(&mut self, count: i32)
        ensures
            final(self).current_idx == old(self).current_idx,
            final(self).pokemons@.len() == old(self).pokemons@.len(),
            forall|j: int|
                0 <= j < old(self).pokemons@.len() && j != old(self).current_idx
                    ==> final(self).pokemons@[j] == old(self).pokemons@[j],
            old(self).has_current() ==> final(self).current().counter == count
                && final(self).current().id == old(self).current().id
                && final(self).current().name == old(self).current().name,
            !old(self).has_current() ==> final(self).pokemons@ == old(self).pokemons@,
    {
        if self.current_idx < self.pokemons.len() {
            let idx = self.current_idx;
            self.pokemons[idx].update_counter(count);
        }
    }
}

/// The address of a Pokémon's sprite image, as the name is written.
pub open spec fn sprite_path_of(name: Seq<char>) -> Seq<char> {
    "https://play.pokemonshowdown.com/sprites/dex/"@ + name + ".png"@
}

/// The address of the sprite image of `loaded_pkmn`.
pub fn generate_sprite_path(loaded_pkmn: &str) -> (r: String)
    ensures
        r@ == sprite_path_of(loaded_pkmn@),
{
    let mut path = String::from_str("https://play.pokemonshowdown.com/sprites/dex/");
    path.append(loaded_pkmn);
    path.append(".png");
    path
}

/// `r` is `s` with the ASCII letters 'A' to 'Z' turned into 'a' to 'z', every
/// other character unchanged.
pub open spec fn is_ascii_lowered(s: Seq<char>, r: Seq<char>) -> bool {
    &&& r.len() == s.len()
    &&& forall|i: int|
        0 <= i < s.len() ==> if 'A' <= #[trigger] s[i] <= 'Z' {
            r[i] as u32 == s[i] as u32 + 32
        } else {
            r[i] == s[i]
        }
}

/// Relies on str::to_ascii_lowercase: ASCII upper-case letters become
/// lower-case, all other characters are kept, one for one.
#[verifier::external_body]
fn ascii_lowercase(s: &str) -> (r: String)
    ensures
        is_ascii_lowered(s@, r@),
{
    s.to_ascii_lowercase()
}

/// The address from which the sprite of `name` is fetched: the sprite path
/// with ASCII letters in lower case.
pub fn sprite_url(name: &str) -> (r: String)
    ensures
        is_ascii_lowered(sprite_path_of(name@), r@),
{
    let path = generate_sprite_path(name);
    ascii_lowercase(path.as_str())
}

} // verus!
