//! Score mutation, team creation and id assignment, turn rotation and the
//! leaderboard, together with the spec-level model of a team list.

use vstd::prelude::*;

verus! {

use crate::domain::Team;

/// Whether some team in `teams` carries the id `id`.
pub open spec fn has_team(teams: Seq<Team>, id: u32) -> bool {
    exists|i: int| 0 <= i < teams.len() && (#[trigger] teams[i]).id == id
}

/// The first position holding the id `id`, or -1 when no team carries it.
pub open spec fn team_index(teams: Seq<Team>, id: u32) -> int
    decreases teams.len(),
{
    if teams.len() == 0 {
        -1
    } else if teams[0].id == id {
        0
    } else {
        let rest = team_index(teams.drop_first(), id);
        if rest < 0 {
            -1
        } else {
            rest + 1
        }
    }
}

/// The largest id carried by any team, or 0 for an empty list.
pub open spec fn max_id(teams: Seq<Team>) -> int
    decreases teams.len(),
{
    if teams.len() == 0 {
        0
    } else {
        let rest = max_id(teams.drop_last());
        if teams.last().id > rest {
            teams.last().id as int
        } else {
            rest
        }
    }
}

/// The id assigned to the next team created: one past the current maximum,
/// saturating at the largest representable id.
pub open spec fn next_team_id(teams: Seq<Team>) -> u32 {
    if max_id(teams) >= u32::MAX {
        u32::MAX
    } else {
        (max_id(teams) + 1) as u32
    }
}

/// The id the rotation pivot moves to: the id one seat past `current` in list
/// order, wrapping to the front; the first team's id when `current` is absent;
/// `current` itself when the list is empty.
pub open spec fn spec_rotate(teams: Seq<Team>, current: u32) -> u32 {
    if teams.len() == 0 {
        current
    } else if has_team(teams, current) {
        teams[(team_index(teams, current) + 1) % (teams.len() as int)].id
    } else {
        teams[0].id
    }
}

/// The `(id, name, score)` rows of the teams, in team-list order.
pub open spec fn leaderboard_entries(teams: Seq<Team>) -> Seq<(u32, String, i32)> {
    teams.map_values(|t: Team| (t.id, t.name, t.score))
}

/// The first position of the highest score among the first `n` rows.
pub open spec fn entry_max_upto(s: Seq<(u32, String, i32)>, n: int) -> int
    decreases n,
{
    if n <= 1 {
        0
    } else {
        let p = entry_max_upto(s, n - 1);
        if s[n - 1].2 > s[p].2 {
            n - 1
        } else {
            p
        }
    }
}

/// The first position of the highest score.
pub open spec fn entry_max_index(s: Seq<(u32, String, i32)>) -> int {
    entry_max_upto(s, s.len() as int)
}

/// The first-maximum position lies within the prefix it was taken over.
pub proof fn lemma_entry_max_upto_in_range(s: Seq<(u32, String, i32)>, n: int)
    requires
        n >= 1,
    ensures
        0 <= entry_max_upto(s, n) < n,
    decreases n,
{
    if n > 1 {
        lemma_entry_max_upto_in_range(s, n - 1);
    }
}

/// The rows in leaderboard order: repeatedly the first row holding the
/// highest remaining score.  Because ties are broken by position, rows with
/// equal scores keep their input order, and the result is determined by the
/// input alone.
pub open spec fn spec_leaderboard_order(s: Seq<(u32, String, i32)>) -> Seq<(u32, String, i32)>
    decreases s.len(),
{
    if s.len() == 0 {
        Seq::empty()
    } else {
        let m = entry_max_index(s);
        let m2 = if 0 <= m < s.len() {
            m
        } else {
            0
        };
        seq![s[m2]] + spec_leaderboard_order(s.remove(m2))
    }
}

/// `x` clamped to the i32 range.
pub open spec fn clamp_i32(x: int) -> int {
    if x > i32::MAX {
        i32::MAX as int
    } else if x < i32::MIN {
        i32::MIN as int
    } else {
        x
    }
}

/// `team_index` points at the first occurrence of an id, and is negative
/// exactly when the id is absent.
pub proof fn lemma_team_index(teams: Seq<Team>, id: u32)
    ensures
        has_team(teams, id) <==> team_index(teams, id) >= 0,
        team_index(teams, id) < teams.len() as int,
        team_index(teams, id) >= 0 ==> teams[team_index(teams, id)].id == id,
        forall|j: int| 0 <= j < team_index(teams, id) ==> (#[trigger] teams[j]).id != id,
    decreases teams.len(),
{
    if teams.len() > 0 && teams[0].id != id {
        lemma_team_index(teams.drop_first(), id);
        assert(forall|i: int|
            0 < i < teams.len() ==> (#[trigger] teams[i]) == teams.drop_first()[i - 1]);
    }
}

/// When position `i` is the first occurrence of `id`, `team_index` equals `i`.
pub proof fn lemma_team_index_first(teams: Seq<Team>, id: u32, i: int)
    requires
        0 <= i < teams.len(),
        teams[i].id == id,
        forall|j: int| 0 <= j < i ==> (#[trigger] teams[j]).id != id,
    ensures
        team_index(teams, id) == i,
    decreases teams.len(),
{
    if i > 0 {
        assert(forall|k: int|
            0 < k < teams.len() ==> (#[trigger] teams[k]) == teams.drop_first()[k - 1]);
        lemma_team_index_first(teams.drop_first(), id, i - 1);
    }
}

/// No id exceeds `max_id`.
pub proof fn lemma_max_id_bounds(teams: Seq<Team>)
    ensures
        forall|i: int| 0 <= i < teams.len() ==> (#[trigger] teams[i]).id <= max_id(teams),
        max_id(teams) >= 0,
    decreases teams.len(),
{
    if teams.len() > 0 {
        lemma_max_id_bounds(teams.drop_last());
        assert(forall|i: int|
            0 <= i < teams.len() - 1 ==> (#[trigger] teams[i]) == teams.drop_last()[i]);
    }
}

/// Team creation during setup hands out strictly increasing, unique ids:
/// while every existing id is below the saturation bound, the next id created
/// exceeds every id already in the list, and the id created after that
/// exceeds it in turn.
pub proof fn lemma_team_ids_strictly_increasing(teams: Seq<Team>, t1: Team, t2: Team)
    requires
        forall|i: int| 0 <= i < teams.len() ==> (#[trigger] teams[i]).id < u32::MAX - 1,
        t1.id == next_team_id(teams),
        t2.id == next_team_id(teams.push(t1)),
    ensures
        forall|i: int| 0 <= i < teams.len() ==> (#[trigger] teams[i]).id < t1.id,
        t1.id < t2.id,
        !has_team(teams, t1.id),
{
    lemma_max_id_bounds(teams);
    assert(max_id(teams) < u32::MAX - 1) by {
        if teams.len() > 0 {
            lemma_max_id_attained(teams);
        }
    }
    assert(teams.push(t1).drop_last() =~= teams);
    assert(max_id(teams.push(t1)) == t1.id);
}

/// A nonempty list attains its `max_id` at some position.
pub proof fn lemma_max_id_attained(teams: Seq<Team>)
    requires
        teams.len() > 0,
    ensures
        exists|i: int| 0 <= i < teams.len() && (#[trigger] teams[i]).id == max_id(teams),
    decreases teams.len(),
{
    let rest = teams.drop_last();
    if teams.last().id as int == max_id(teams) {
        assert(teams[teams.len() - 1].id == max_id(teams));
    } else {
        assert(rest.len() > 0) by {
            if rest.len() == 0 {
                assert(max_id(rest) == 0);
            }
        }
        lemma_max_id_attained(rest);
        let i = choose|i: int|
            0 <= i < rest.len() && (#[trigger] rest[i]).id == max_id(rest);
        assert(teams[i] == rest[i]);
    }
}

/// The first position in `teams` holding id `id`, as `team_index` describes.
pub(crate) fn find_team_index(teams: &[Team], id: u32) -> (r: Option<usize>)
    ensures
        match r {
            Some(i) => i as int == team_index(teams@, id) && i < teams@.len() && teams@[i as int].id
                == id,
            None => !has_team(teams@, id),
        },
{
    let n = teams.len();
    let mut i: usize = 0;
    while i < n
        invariant
            i <= n,
            n == teams@.len(),
            forall|j: int| 0 <= j < i ==> (#[trigger] teams@[j]).id != id,
        decreases n - i,
    {
        if teams[i].id == id {
            proof {
                lemma_team_index_first(teams@, id, i as int);
            }
            return Some(i);
        }
        i = i + 1;
    }
    None
}

/// Saturating signed addition.
pub(crate) fn sat_add_i32(a: i32, b: i32) -> (r: i32)
    ensures
        r as int == clamp_i32(a + b),
{
    match a.checked_add(b) {
        Some(v) => v,
        None => if b >= 0 {
            i32::MAX
        } else {
            i32::MIN
        },
    }
}

/// Saturating signed subtraction.
pub(crate) fn sat_sub_i32(a: i32, b: i32) -> (r: i32)
    ensures
        r as int == clamp_i32(a - b),
{
    match a.checked_sub(b) {
        Some(v) => v,
        None => if b <= 0 {
            i32::MAX
        } else {
            i32::MIN
        },
    }
}

/// Mutates the score of the team at the (existing) position `i` to `score`,
/// leaving everything else in place.
pub(crate) fn set_score_at(teams: &mut Vec<Team>, i: usize, score: i32)
    requires
        i < old(teams)@.len(),
    ensures
        final(teams)@ == old(teams)@.update(
            i as int,
            Team { id: old(teams)@[i as int].id, name: old(teams)@[i as int].name, score: score },
        ),
{
    let t = teams.remove(i);
    teams.insert(i, Team { id: t.id, name: t.name, score });
    proof {
        assert(final(teams)@ =~= old(teams)@.update(
            i as int,
            Team { id: old(teams)@[i as int].id, name: old(teams)@[i as int].name, score: score },
        ));
    }
}

/// The scoring helper: operates on a team list handed in by reference.
#[derive(Debug)]
pub struct ScoringEngine;

impl ScoringEngine {
    pub fn new() -> (s: Self) {
        ScoringEngine
    }

    /// Adds `points` to the score of the team with id `team_id` (saturating at
    /// the i32 range), reporting whether such a team exists; an unknown id
    /// mutates nothing.
    pub fn award_points(&self, teams: &mut Vec<Team>, team_id: u32, points: i32) -> (r: bool)
        ensures
            r == has_team(old(teams)@, team_id),
            !r ==> final(teams)@ == old(teams)@,
            r ==> final(teams)@ == old(teams)@.update(
                team_index(old(teams)@, team_id),
                Team {
                    id: team_id,
                    name: old(teams)@[team_index(old(teams)@, team_id)].name,
                    score: clamp_i32(
                        old(teams)@[team_index(old(teams)@, team_id)].score + points,
                    ) as i32,
                },
            ),
    {
        proof {
            lemma_team_index(teams@, team_id);
        }
        match find_team_index(teams.as_slice(), team_id) {
            Some(i) => {
                let new_score = sat_add_i32(teams[i].score, points);
                set_score_at(teams, i, new_score);
                true
            },
            None => false,
        }
    }

    /// Subtracts `points` from the score of the team with id `team_id`
    /// (saturating at the i32 range), reporting whether such a team exists;
    /// an unknown id mutates nothing.
    pub fn deduct_points(&self, teams: &mut Vec<Team>, team_id: u32, points: i32) -> (r: bool)
        ensures
            r == has_team(old(teams)@, team_id),
            !r ==> final(teams)@ == old(teams)@,
            r ==> final(teams)@ == old(teams)@.update(
                team_index(old(teams)@, team_id),
                Team {
                    id: team_id,
                    name: old(teams)@[team_index(old(teams)@, team_id)].name,
                    score: clamp_i32(
                        old(teams)@[team_index(old(teams)@, team_id)].score - points,
                    ) as i32,
                },
            ),
    {
        proof {
            lemma_team_index(teams@, team_id);
        }
        match find_team_index(teams.as_slice(), team_id) {
            Some(i) => {
                let new_score = sat_sub_i32(teams[i].score, points);
                set_score_at(teams, i, new_score);
                true
            },
            None => false,
        }
    }

    /// Appends a new team named `name` with a zero score, assigning the id one
    /// past the current maximum (saturating), and returns that id.
    pub fn add_team(&self, teams: &mut Vec<Team>, name: String) -> (r: u32)
        ensures
            r == next_team_id(old(teams)@),
            final(teams)@ == old(teams)@.push(Team { id: r, name: name, score: 0 }),
    {
        let n = teams.len();
        let mut m: u32 = 0;
        let mut i: usize = 0;
        while i < n
            invariant
                i <= n,
                n == teams@.len(),
                m as int == max_id(teams@.take(i as int)),
            decreases n - i,
        {
            proof {
                assert(teams@.take(i + 1).drop_last() =~= teams@.take(i as int));
                assert(teams@.take(i + 1).last() == teams@[i as int]);
            }
            if teams[i].id > m {
                m = teams[i].id;
            }
            i = i + 1;
        }
        proof {
            assert(teams@.take(n as int) =~= teams@);
        }
        let next_id = if m == u32::MAX {
            u32::MAX
        } else {
            m + 1
        };
        teams.push(Team { id: next_id, name, score: 0 });
        next_id
    }

    /// The score of the team with id `team_id`, if one exists.
    pub fn get_team_score(&self, teams: &[Team], team_id: u32) -> (r: Option<i32>)
        ensures
            match r {
                Some(s) => has_team(teams@, team_id) && s == teams@[team_index(
                    teams@,
                    team_id,
                )].score,
                None => !has_team(teams@, team_id),
            },
    {
        match find_team_index(teams, team_id) {
            Some(i) => Some(teams[i].score),
            None => None,
        }
    }

    /// Whether a team with id `team_id` exists.
    pub fn team_exists(&self, teams: &[Team], team_id: u32) -> (r: bool)
        ensures
            r == has_team(teams@, team_id),
    {
        match find_team_index(teams, team_id) {
            Some(_) => true,
            None => false,
        }
    }

    /// One `(id, name, score)` row per team, sorted by score descending: a
    /// permutation of the teams' rows in which no score precedes a larger
    /// one, and rows with equal scores keep their team-list order (the
    /// result equals the canonical [`spec_leaderboard_order`]).
    pub fn get_leaderboard(&self, teams: &[Team]) -> (r: Vec<(u32, String, i32)>)
        ensures
            r@.len() == teams@.len(),
            r@.to_multiset() == leaderboard_entries(teams@).to_multiset(),
            forall|i: int, j: int|
                0 <= i < j < r@.len() ==> (#[trigger] r@[i]).2 >= (#[trigger] r@[j]).2,
            r@ == spec_leaderboard_order(leaderboard_entries(teams@)),
    {
        broadcast use vstd::seq_lib::group_to_multiset_ensures;
        broadcast use vstd::multiset::group_multiset_axioms;

        let n = teams.len();
        let mut src: Vec<(u32, String, i32)> = Vec::new();
        let mut i: usize = 0;
        while i < n
            invariant
                i <= n,
                n == teams@.len(),
                src@.len() == i,
                forall|j: int| 0 <= j < i ==> src@[j] == leaderboard_entries(teams@)[j],
            decreases n - i,
        {
            let t = &teams[i];
            src.push((t.id, t.name.clone(), t.score));
            i = i + 1;
        }
        proof {
            assert(src@ =~= leaderboard_entries(teams@));
        }
        let ghost orig = src@;
        let mut out: Vec<(u32, String, i32)> = Vec::new();
        proof {
            assert(out@ + spec_leaderboard_order(src@) =~= spec_leaderboard_order(orig));
        }
        while src.len() > 0
            invariant
                out@.len() + src@.len() == orig.len(),
                out@.to_multiset().add(src@.to_multiset()) == orig.to_multiset(),
                out@ + spec_leaderboard_order(src@) == spec_leaderboard_order(orig),
                forall|i: int, j: int|
                    0 <= i < j < out@.len() ==> (#[trigger] out@[i]).2 >= (#[trigger] out@[j]).2,
                forall|i: int, j: int|
                    0 <= i < out@.len() && 0 <= j < src@.len() ==> (#[trigger] out@[i]).2
                        >= (#[trigger] src@[j]).2,
            decreases src@.len(),
        {
            let m = src.len();
            let mut mi: usize = 0;
            let mut k: usize = 1;
            while k < m
                invariant
                    mi < m,
                    k <= m,
                    m == src@.len(),
                    mi as int == entry_max_upto(src@, k as int),
                    forall|j: int| 0 <= j < k ==> src@[mi as int].2 >= (#[trigger] src@[j]).2,
                decreases m - k,
            {
                if src[k].2 > src[mi].2 {
                    mi = k;
                }
                k = k + 1;
            }
            let ghost src_before = src@;
            let ghost out_before = out@;
            let x = src.remove(mi);
            out.push(x);
            proof {
                src_before.to_multiset_ensures();
                out_before.to_multiset_ensures();
                assert(src_before.contains(src_before[mi as int]));
                assert(src_before.to_multiset().count(x) > 0);
                assert(src@.to_multiset() == src_before.to_multiset().remove(x)) by {
                    assert(src@.to_multiset() == src_before.remove(mi as int).to_multiset());
                }
                assert(out@.to_multiset() == out_before.to_multiset().insert(x)) by {
                    assert(out@.to_multiset() == out_before.push(x).to_multiset());
                }
                assert(out@.to_multiset().add(src@.to_multiset()) =~= orig.to_multiset());
                lemma_entry_max_upto_in_range(src_before, src_before.len() as int);
                assert(mi as int == entry_max_index(src_before));
                assert(spec_leaderboard_order(src_before) == seq![x] + spec_leaderboard_order(
                    src@,
                ));
                assert(out@ + spec_leaderboard_order(src@) =~= out_before + (seq![x]
                    + spec_leaderboard_order(src@)));
            }
        }
        proof {
            assert(out@ + spec_leaderboard_order(src@) =~= out@);
        }
        out
    }

    /// The id one seat past `current_active` in list order, wrapping to the
    /// front; the first team's id when `current_active` is absent; and
    /// `current_active` itself when the list is empty.
    pub fn rotate_active_team(&self, teams: &[Team], current_active: u32) -> (r: u32)
        ensures
            r == spec_rotate(teams@, current_active),
    {
        let n = teams.len();
        if n == 0 {
            return current_active;
        }
        match find_team_index(teams, current_active) {
            Some(pos) => {
                let next_index = (pos + 1) % n;
                teams[next_index].id
            },
            None => teams[0].id,
        }
    }
}

} // verus!
