//! Passive domain data: the board grid of categories and clues, the teams,
//! and the small auxiliary records carried along with a running game.

use vstd::prelude::*;

verus! {

/// A single question/answer unit with a points value and solved/revealed flags.
#[derive(Debug, Clone)]
pub struct Clue {
    pub id: u32,
    pub points: u32,
    pub question: String,
    pub answer: String,
    pub revealed: bool,
    pub solved: bool,
}

/// A named column of clues; all categories of a board share the row count.
#[derive(Debug, Clone)]
pub struct Category {
    pub name: String,
    pub clues: Vec<Clue>,
}

/// The ordered sequence of categories, in display order.
#[derive(Debug, Clone)]
pub struct Board {
    pub categories: Vec<Category>,
}

/// A team: unique numeric id, display name, signed score (may go negative).
#[derive(Debug, Clone)]
pub struct Team {
    pub id: u32,
    pub name: String,
    pub score: i32,
}

/// Legacy one-shot modifier kinds kept for snapshot compatibility.
#[derive(Debug, Clone, Copy)]
pub enum Surprise {
    DoubleNext,
    ShuffleOneRound,
}

/// Legacy modifier bookkeeping kept for snapshot compatibility.
#[derive(Debug, Clone)]
pub struct SurpriseState {
    pub pending: Option<Surprise>,
    pub expires_after_clues: u32,
}

impl Default for SurpriseState {
    fn default() -> (s: Self)
        ensures
            s.pending is None,
            s.expires_after_clues == 0,
    {
        SurpriseState { pending: None, expires_after_clues: 0 }
    }
}

/// Maps logical (category, row) coordinates to visual positions, so the
/// presentation layer can shuffle cells without touching the logical board.
#[derive(Debug, Clone)]
pub struct UiMapping {
    pub logical_to_visual: Vec<(usize, usize)>,
}

impl UiMapping {
    /// The pair held at flat position `k` of the identity mapping.
    pub open spec fn identity_entry(num_rows: int, k: int) -> (usize, usize) {
        (((k / num_rows) as usize), ((k % num_rows) as usize))
    }

    /// `m` is the identity mapping for a board of the given dimensions.
    pub open spec fn is_identity_map(m: UiMapping, num_categories: int, num_rows: int) -> bool {
        &&& m.logical_to_visual@.len() == num_categories * num_rows
        &&& forall|k: int|
            0 <= k < m.logical_to_visual@.len() ==> (#[trigger] m.logical_to_visual@[k])
                == Self::identity_entry(num_rows, k)
    }

    /// The identity mapping: flat position `c * num_rows + r` holds `(c, r)`.
    pub fn identity(num_categories: usize, num_rows: usize) -> (m: Self)
        ensures
            Self::is_identity_map(m, num_categories as int, num_rows as int),
    {
        let mut logical_to_visual: Vec<(usize, usize)> = Vec::new();
        let mut c: usize = 0;
        while c < num_categories
            invariant
                c <= num_categories,
                logical_to_visual@.len() == c * num_rows,
                forall|k: int|
                    0 <= k < logical_to_visual@.len()
                        ==> (#[trigger] logical_to_visual@[k])
                            == Self::identity_entry(num_rows as int, k),
            decreases num_categories - c,
        {
            let mut r: usize = 0;
            while r < num_rows
                invariant
                    c < num_categories,
                    r <= num_rows,
                    logical_to_visual@.len() == c * num_rows + r,
                    forall|k: int|
                        0 <= k < logical_to_visual@.len()
                            ==> (#[trigger] logical_to_visual@[k])
                                == Self::identity_entry(num_rows as int, k),
                decreases num_rows - r,
            {
                proof {
                    vstd::arithmetic::div_mod::lemma_fundamental_div_mod_converse(
                        c * num_rows + r,
                        num_rows as int,
                        c as int,
                        r as int,
                    );
                }
                logical_to_visual.push((c, r));
                r = r + 1;
            }
            assert((c + 1) * (num_rows as int) == c * (num_rows as int) + num_rows)
                by (nonlinear_arith);
            c = c + 1;
        }
        UiMapping { logical_to_visual }
    }
}

/// Whether `pos` names an existing (category, row) cell of the board.
pub open spec fn valid_clue_pos(b: Board, pos: (usize, usize)) -> bool {
    pos.0 < b.categories@.len() && pos.1 < b.categories@[pos.0 as int].clues@.len()
}

/// The clue at an existing position.
pub open spec fn clue_at(b: Board, pos: (usize, usize)) -> Clue {
    b.categories@[pos.0 as int].clues@[pos.1 as int]
}

/// `post` is `pre` with exactly the clue at `pos` replaced by `c`: every other
/// category is untouched, and the touched category keeps its name and its
/// other clues.
pub open spec fn board_updated(pre: Board, post: Board, pos: (usize, usize), c: Clue) -> bool {
    &&& post.categories@.len() == pre.categories@.len()
    &&& forall|i: int|
        0 <= i < pre.categories@.len() && i != pos.0 ==> #[trigger] post.categories@[i]
            == pre.categories@[i]
    &&& post.categories@[pos.0 as int].name == pre.categories@[pos.0 as int].name
    &&& post.categories@[pos.0 as int].clues@ == pre.categories@[pos.0 as int].clues@.update(
        pos.1 as int,
        c,
    )
}

/// The ordered list of unsolved positions within one category's clues,
/// starting at row `r`.
pub open spec fn avail_in_category(clues: Seq<Clue>, c: int, r: int) -> Seq<(usize, usize)>
    decreases clues.len() - r,
{
    if r < 0 || r >= clues.len() {
        Seq::empty()
    } else {
        let rest = avail_in_category(clues, c, r + 1);
        if !clues[r].solved {
            seq![((c as usize, r as usize))] + rest
        } else {
            rest
        }
    }
}

/// The ordered list of unsolved positions of the categories from index `c` on.
pub open spec fn avail_from_category(cats: Seq<Category>, c: int) -> Seq<(usize, usize)>
    decreases cats.len() - c,
{
    if c < 0 || c >= cats.len() {
        Seq::empty()
    } else {
        avail_in_category(cats[c].clues@, c, 0) + avail_from_category(cats, c + 1)
    }
}

/// Every unsolved position of the board, in category-major order.
pub open spec fn spec_available_clues(b: Board) -> Seq<(usize, usize)> {
    avail_from_category(b.categories@, 0)
}

impl Board {
    /// A clue of the freshly generated default board: ids are assigned
    /// column-major starting at 1, row `r` is worth `(r + 1) * 100` points,
    /// the texts are empty and both flags are clear.
    pub open spec fn default_clue_at(num_rows: int, c: int, r: int, clue: Clue) -> bool {
        &&& clue.id == c * num_rows + r + 1
        &&& clue.points == (r + 1) * 100
        &&& clue.question@ == Seq::<char>::empty()
        &&& clue.answer@ == Seq::<char>::empty()
        &&& !clue.revealed
        &&& !clue.solved
    }

    /// A freshly generated board: `num_categories` categories named
    /// "Category 1", "Category 2", ... each holding `num_rows` default clues.
    pub fn default_with_dimensions(num_categories: usize, num_rows: usize) -> (b: Self)
        requires
            num_categories < u32::MAX,
            num_categories * num_rows < u32::MAX,
            100 * num_rows <= u32::MAX,
        ensures
            b.categories@.len() == num_categories,
            forall|c: int|
                0 <= c < num_categories
                    ==> (#[trigger] b.categories@[c]).clues@.len() == num_rows
                        && b.categories@[c].name@ == "Category "@ + crate::text::spec_decimal(
                        c + 1,
                    ),
            forall|c: int, r: int|
                0 <= c < num_categories && 0 <= r < num_rows
                    ==> Self::default_clue_at(
                        num_rows as int,
                        c,
                        r,
                        #[trigger] b.categories@[c].clues@[r],
                    ),
    {
        let mut categories: Vec<Category> = Vec::new();
        let mut c: usize = 0;
        while c < num_categories
            invariant
                c <= num_categories,
                num_categories < u32::MAX,
                num_categories * num_rows < u32::MAX,
                100 * num_rows <= u32::MAX,
                categories@.len() == c,
                forall|ci: int|
                    0 <= ci < c
                        ==> (#[trigger] categories@[ci]).clues@.len() == num_rows
                            && categories@[ci].name@ == "Category "@ + crate::text::spec_decimal(
                            ci + 1,
                        ),
                forall|ci: int, ri: int|
                    0 <= ci < c && 0 <= ri < num_rows
                        ==> Self::default_clue_at(
                            num_rows as int,
                            ci,
                            ri,
                            #[trigger] categories@[ci].clues@[ri],
                        ),
            decreases num_categories - c,
        {
            let mut name = "Category ".to_owned();
            let num = crate::text::u32_decimal((c as u32) + 1);
            name.append(num.as_str());
            let mut clues: Vec<Clue> = Vec::new();
            let mut r: usize = 0;
            while r < num_rows
                invariant
                    c < num_categories,
                    r <= num_rows,
                    num_categories * num_rows < u32::MAX,
                    100 * num_rows <= u32::MAX,
                    clues@.len() == r,
                    forall|ri: int|
                        0 <= ri < r
                            ==> Self::default_clue_at(
                                num_rows as int,
                                c as int,
                                ri,
                                #[trigger] clues@[ri],
                            ),
                decreases num_rows - r,
            {
                assert(c * num_rows + r + 1 < u32::MAX && (r + 1) * 100 <= u32::MAX)
                    by (nonlinear_arith)
                    requires
                        num_categories * num_rows < u32::MAX,
                        100 * num_rows <= u32::MAX,
                        c < num_categories,
                        r < num_rows,
                ;
                let id: u32 = ((c * num_rows + r) as u32) + 1;
                let points: u32 = ((r as u32) + 1) * 100;
                clues.push(
                    Clue {
                        id,
                        points,
                        question: String::new(),
                        answer: String::new(),
                        revealed: false,
                        solved: false,
                    },
                );
                r = r + 1;
            }
            categories.push(Category { name, clues });
            c = c + 1;
        }
        Board { categories }
    }
}

impl Default for Board {
    /// The default six-by-five board.
    fn default() -> (b: Self)
        ensures
            b.categories@.len() == 6,
            forall|c: int| 0 <= c < 6 ==> (#[trigger] b.categories@[c]).clues@.len() == 5,
    {
        Board::default_with_dimensions(6, 5)
    }
}

/// Configuration-screen state: the board being authored.
#[derive(Debug, Clone)]
pub struct ConfigState {
    pub board: Board,
}

} // verus!
