//! The cast of NPC identities the labyrinth draws its encounters from.
//!
//! At start-up a fixed number of identities is drawn, without repetition,
//! from a username pool the presentation layer loads.

use vstd::prelude::*;
use crate::rng::GameRng;

verus! {

/// How many NPC identities a session has.
pub const NPC_COUNT: usize = 3;

#[derive(Debug)]
pub struct NPCData {
    pub sprite_id: usize,
    pub username: String,
}

impl NPCData {
    /// A value-preserving copy.
    pub fn duplicate(&self) -> (r: NPCData)
        ensures
            r.sprite_id == self.sprite_id,
            r.username@ == self.username@,
    {
        NPCData { sprite_id: self.sprite_id, username: self.username.clone() }
    }
}

/// The username pool the identities are drawn from, as the loader hands it
/// in.
pub struct UsernamesResource {
    pub usernames: Vec<String>,
}

/// The drawn identities of this session.
pub struct NPCsResource {
    pub npcs: Vec<NPCData>,
}

/// No two strings of the sequence read the same.
pub open spec fn distinct_strings(s: Seq<String>) -> bool {
    forall|i: int, j: int| 0 <= i < j < s.len() ==> s[i]@ != s[j]@
}

/// No two NPCs of the sequence share a username.
pub open spec fn distinct_npcs(s: Seq<NPCData>) -> bool {
    forall|i: int, j: int| 0 <= i < j < s.len() ==> s[i].username@ != s[j].username@
}

/// The username appears somewhere in the pool.
pub open spec fn name_in_pool(name: Seq<char>, pool: Seq<String>) -> bool {
    exists|j: int| 0 <= j < pool.len() && pool[j]@ == name
}

/// Removing an element keeps the remaining strings distinct, and keeps them
/// members of whatever set they were members of.
proof fn lemma_remove_keeps_distinct(s: Seq<String>, k: int)
    requires
        0 <= k < s.len(),
        distinct_strings(s),
    ensures
        distinct_strings(s.remove(k)),
        forall|i: int| 0 <= i < s.remove(k).len() ==> #[trigger] s.remove(k)[i]@ != s[k]@,
{
    assert forall|i: int, j: int| 0 <= i < j < s.remove(k).len() implies s.remove(k)[i]@ != s.remove(
        k,
    )[j]@ by {
        assert(s.remove(k)[i] == if i < k {
            s[i]
        } else {
            s[i + 1]
        });
        assert(s.remove(k)[j] == if j < k {
            s[j]
        } else {
            s[j + 1]
        });
    }
    assert forall|i: int| 0 <= i < s.remove(k).len() implies #[trigger] s.remove(k)[i]@ != s[k]@ by {
        assert(s.remove(k)[i] == if i < k {
            s[i]
        } else {
            s[i + 1]
        });
    }
}

/// Draws the session's NPC identities: distinct usernames from the pool, one
/// sprite per draw in order. The pool must offer at least `NPC_COUNT`
/// distinct names.
pub fn generate_npcs(usernames: &Vec<String>, rng: &mut GameRng) -> (r: Vec<NPCData>)
    requires
        usernames@.len() >= NPC_COUNT,
        usernames@.len() <= u32::MAX,
        distinct_strings(usernames@),
    ensures
        r@.len() == NPC_COUNT,
        distinct_npcs(r@),
        forall|i: int| 0 <= i < r@.len() ==> #[trigger] r@[i].sprite_id == i,
        forall|i: int| 0 <= i < r@.len() ==> name_in_pool(#[trigger] r@[i].username@, usernames@),
{
    let mut pool: Vec<String> = Vec::new();
    let mut k: usize = 0;
    while k < usernames.len()
        invariant
            k <= usernames@.len(),
            pool@.len() == k,
            forall|i: int| 0 <= i < k ==> pool@[i]@ == usernames@[i]@,
        decreases usernames@.len() - k,
    {
        pool.push(usernames[k].clone());
        k = k + 1;
    }
    let mut r: Vec<NPCData> = Vec::new();
    let mut i: usize = 0;
    while i < NPC_COUNT
        invariant
            i <= NPC_COUNT,
            r@.len() == i,
            pool@.len() == usernames@.len() - i,
            pool@.len() <= u32::MAX,
            distinct_strings(pool@),
            distinct_npcs(r@),
            usernames@.len() >= NPC_COUNT,
            forall|j: int| 0 <= j < i ==> #[trigger] r@[j].sprite_id == j,
            forall|j: int| 0 <= j < i ==> name_in_pool(#[trigger] r@[j].username@, usernames@),
            forall|j: int, p: int|
                0 <= j < i && 0 <= p < pool@.len() ==> #[trigger] r@[j].username@ != #[trigger] pool@[p]@,
            forall|p: int| 0 <= p < pool@.len() ==> name_in_pool(#[trigger] pool@[p]@, usernames@),
        decreases NPC_COUNT - i,
    {
        let idx_u32 = rng.below(pool.len() as u32);
        let idx = idx_u32 as usize;
        proof {
            lemma_remove_keeps_distinct(pool@, idx as int);
        }
        let username = pool.remove(idx);
        r.push(NPCData { sprite_id: i, username });
        i = i + 1;
    }
    r
}

} // verus!
