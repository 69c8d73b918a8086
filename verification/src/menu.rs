use vstd::prelude::*;

use crate::tile::Coord;

verus! {

/// One entry of the game menu.
#[derive(Clone, Copy, Debug, PartialEq, Eq, Structural)]
pub enum MenuEntry {
    Continue,
    NewPuzzle,
    Exit,
}

impl MenuEntry {
    /// The label the view layer puts on this entry's button.
    pub fn button_text(&self) -> (r: String)
        ensures
            self is Continue ==> r@ == "Continue"@,
            self is NewPuzzle ==> r@ == "New Puzzle"@,
            self is Exit ==> r@ == "Exit"@,
    {
        match self {
            MenuEntry::Continue => "Continue",
            MenuEntry::NewPuzzle => "New Puzzle",
            MenuEntry::Exit => "Exit",
        }.to_owned()
    }
}

/// The first position in `s`, from `i` on, whose entry equals `e`.
pub open spec fn first_entry_index(s: Seq<(MenuEntry, u64)>, e: MenuEntry, i: nat) -> Option<int>
    decreases s.len() - i,
{
    if i >= s.len() {
        None
    } else if s[i as int].0 == e {
        Some(i as int)
    } else {
        first_entry_index(s, e, i + 1)
    }
}

/// The game menu: an ordered list of entries, each paired with the
/// view-layer handle of its button, and the position of the highlighted
/// entry. A menu always has at least one entry.
pub struct Menu {
    buttons: Vec<(MenuEntry, u64)>,
    active: usize,
}

impl Menu {
    /// The entries with their button handles, in display order.
    pub closed spec fn spec_buttons(self) -> Seq<(MenuEntry, u64)> {
        self.buttons@
    }

    /// The position of the highlighted entry.
    pub closed spec fn spec_active(self) -> int {
        self.active as int
    }

    /// Well-formed: nonempty, with the highlight on a real entry.
    pub open spec fn wf(self) -> bool {
        0 < self.spec_buttons().len() && 0 <= self.spec_active() < self.spec_buttons().len()
    }

    /// A menu over the given buttons, with the first entry highlighted.
    pub fn new(buttons: Vec<(MenuEntry, u64)>) -> (r: Menu)
        requires
            buttons@.len() > 0,
        ensures
            r.wf(),
            r.spec_buttons() == buttons@,
            r.spec_active() == 0,
    {
        Menu { buttons, active: 0 }
    }

    /// Moves the highlight to the first button holding the given entry; a
    /// no-op when no button does.
    pub fn set_active(&mut self, menu_entry: &MenuEntry)
        requires
            old(self).wf(),
        ensures
            final(self).wf(),
            final(self).spec_buttons() == old(self).spec_buttons(),
            final(self).spec_active() == (match first_entry_index(
                old(self).spec_buttons(),
                *menu_entry,
                0,
            ) {
                Some(j) => j,
                None => old(self).spec_active(),
            }),
    {
        let mut i: usize = 0;
        let n = self.buttons.len();
        while i < n
            invariant
                self == old(self),
                self.wf(),
                n == self.spec_buttons().len(),
                i <= n,
                first_entry_index(self.spec_buttons(), *menu_entry, 0) == first_entry_index(
                    self.spec_buttons(),
                    *menu_entry,
                    i as nat,
                ),
            decreases n - i,
        {
            if self.buttons[i].0 == *menu_entry {
                self.active = i;
                return ;
            }
            i = i + 1;
        }
    }

    /// Moves the highlight one entry down, wrapping at the end.
    pub fn set_next_active(&mut self)
        requires
            old(self).wf(),
        ensures
            final(self).wf(),
            final(self).spec_buttons() == old(self).spec_buttons(),
            final(self).spec_active() == (old(self).spec_active() + 1) % (old(
                self,
            ).spec_buttons().len() as int),
    {
        let n = self.buttons.len();
        self.active = if self.active + 1 < n {
            self.active + 1
        } else {
            0
        };
        proof {
            let len = self.spec_buttons().len() as int;
            if old(self).spec_active() + 1 < len {
                vstd::arithmetic::div_mod::lemma_small_mod(
                    (old(self).spec_active() + 1) as nat,
                    len as nat,
                );
            } else {
                vstd::arithmetic::div_mod::lemma_mod_self_0(len);
            }
        }
    }

    /// Moves the highlight one entry up, wrapping at the start.
    pub fn set_prev_active(&mut self)
        requires
            old(self).wf(),
        ensures
            final(self).wf(),
            final(self).spec_buttons() == old(self).spec_buttons(),
            final(self).spec_active() == (old(self).spec_active() + old(
                self,
            ).spec_buttons().len() as int - 1) % (old(self).spec_buttons().len() as int),
    {
        let n = self.buttons.len();
        self.active = if self.active == 0 {
            n - 1
        } else {
            self.active - 1
        };
        proof {
            let len = self.spec_buttons().len() as int;
            let a = old(self).spec_active();
            vstd::arithmetic::div_mod::lemma_mod_add_multiples_vanish(a - 1 + len, len);
            if a == 0 {
                vstd::arithmetic::div_mod::lemma_small_mod((len - 1) as nat, len as nat);
            } else {
                vstd::arithmetic::div_mod::lemma_small_mod((a - 1) as nat, len as nat);
                vstd::arithmetic::div_mod::lemma_mod_add_multiples_vanish(a - 1, len);
            }
        }
    }

    /// The highlighted entry.
    pub fn get_active_entry(&self) -> (r: MenuEntry)
        requires
            self.wf(),
        ensures
            r == self.spec_buttons()[self.spec_active()].0,
    {
        self.buttons[self.active].0
    }
}

/// Which button shows as highlighted: each button's handle with whether it
/// is the active one. Pure view-model data; the colours live in the view
/// layer.
pub fn menu_active_update(menu: &Menu) -> (r: Vec<(u64, bool)>)
    requires
        menu.wf(),
    ensures
        r@.len() == menu.spec_buttons().len(),
        forall|i: int|
            0 <= i < r@.len() ==> #[trigger] r@[i] == (
                menu.spec_buttons()[i].1,
                i == menu.spec_active(),
            ),
{
    let mut out: Vec<(u64, bool)> = Vec::new();
    let n = menu.buttons.len();
    let mut i: usize = 0;
    while i < n
        invariant
            menu.wf(),
            n == menu.spec_buttons().len(),
            i <= n,
            out@.len() == i,
            forall|j: int|
                0 <= j < i ==> #[trigger] out@[j] == (
                    menu.spec_buttons()[j].1,
                    j == menu.spec_active(),
                ),
        decreases n - i,
    {
        let handle = menu.buttons[i].1;
        let is_active = i == menu.active;
        proof {
            assert(is_active == (i as int == menu.spec_active()));
        }
        out.push((handle, is_active));
        i = i + 1;
    }
    out
}

/// The menu's reaction to one round of input, with the engine's polling
/// left to the caller: a clicked entry is emitted, a hovered entry moves
/// the highlight, the next/prev keys step it, and the confirm key emits
/// the highlighted entry. Returns the emitted entries in order.
pub fn menu_interaction(
    menu: &mut Menu,
    hovered: Option<MenuEntry>,
    clicked: Option<MenuEntry>,
    key_next: bool,
    key_prev: bool,
    key_confirm: bool,
) -> (r: Vec<MenuEntry>)
    requires
        old(menu).wf(),
    ensures
        final(menu).wf(),
        final(menu).spec_buttons() == old(menu).spec_buttons(),
        ({
            let s = old(menu).spec_buttons();
            let len = s.len() as int;
            let a1 = (match hovered {
                Some(e) => (match first_entry_index(s, e, 0) {
                    Some(j) => j,
                    None => old(menu).spec_active(),
                }),
                None => old(menu).spec_active(),
            });
            let a2 = if key_next {
                (a1 + 1) % len
            } else {
                a1
            };
            let a3 = if key_prev {
                (a2 + len - 1) % len
            } else {
                a2
            };
            &&& final(menu).spec_active() == a3
            &&& r@ == (match clicked {
                Some(e) => seq![e],
                None => Seq::<MenuEntry>::empty(),
            }) + (if key_confirm {
                seq![s[a3].0]
            } else {
                Seq::<MenuEntry>::empty()
            })
        }),
{
    let mut events: Vec<MenuEntry> = Vec::new();
    match clicked {
        Some(e) => {
            events.push(e);
        },
        None => {},
    }
    match hovered {
        Some(e) => {
            menu.set_active(&e);
        },
        None => {},
    }
    if key_next {
        menu.set_next_active();
    }
    if key_prev {
        menu.set_prev_active();
    }
    if key_confirm {
        let active = menu.get_active_entry();
        events.push(active);
    }
    proof {
        assert(events@ =~= (match clicked {
            Some(e) => seq![e],
            None => Seq::<MenuEntry>::empty(),
        }) + (if key_confirm {
            seq![menu.spec_buttons()[menu.spec_active()].0]
        } else {
            Seq::<MenuEntry>::empty()
        }));
    }
    events
}

/// The entries the menu offers: continuing is only offered while an
/// unsolved puzzle exists, a new puzzle and leaving are always offered.
/// The engine work of laying the buttons out stays with the caller.
pub fn setup_menu(has_unsolved_puzzle: bool) -> (r: Vec<MenuEntry>)
    ensures
        has_unsolved_puzzle ==> r@ == seq![
            MenuEntry::Continue,
            MenuEntry::NewPuzzle,
            MenuEntry::Exit,
        ],
        !has_unsolved_puzzle ==> r@ == seq![MenuEntry::NewPuzzle, MenuEntry::Exit],
        r@.len() > 0,
{
    let mut entries: Vec<MenuEntry> = Vec::new();
    if has_unsolved_puzzle {
        entries.push(MenuEntry::Continue);
    }
    entries.push(MenuEntry::NewPuzzle);
    entries.push(MenuEntry::Exit);
    proof {
        if has_unsolved_puzzle {
            assert(entries@ =~= seq![MenuEntry::Continue, MenuEntry::NewPuzzle, MenuEntry::Exit]);
        } else {
            assert(entries@ =~= seq![MenuEntry::NewPuzzle, MenuEntry::Exit]);
        }
    }
    entries
}

/// What the game does with a chosen menu entry: keep solving, build and
/// shuffle a fresh puzzle, or quit.
#[derive(Clone, Copy, Debug, PartialEq, Eq)]
pub enum MenuCommand {
    /// Return to solving the current puzzle.
    ResumePuzzle,
    /// Replace the puzzle with a fresh one of the given (rows, columns)
    /// size, shuffled with the given move count and orientation ratios.
    StartPuzzle {
        size: Coord,
        n_moves: usize,
        flip_ratio: (u32, u32),
        rotation_ratio: (u32, u32),
    },
    /// Leave the game.
    Exit,
}

/// The board size the next puzzle gets: one more row and column each
/// round, wrapping from 7x7 back to the smallest board.
pub open spec fn spec_next_size(current: Option<Coord>) -> Coord {
    match current {
        Some(c) => {
            if c == (Coord { row: 7, col: 7 }) {
                Coord { row: 3, col: 3 }
            } else {
                Coord { row: (c.row + 1) as usize, col: (c.col + 1) as usize }
            }
        },
        None => Coord { row: 3, col: 3 },
    }
}

/// The shuffle parameters for a board with the given row count: the walk
/// length with the flip and rotation probabilities, as ratios, growing
/// with the board.
pub open spec fn spec_difficulty(rows: usize) -> (usize, (u32, u32), (u32, u32)) {
    if rows == 3 {
        (5, (0, 1), (0, 1))
    } else if rows == 4 {
        (20, (0, 1), (0, 1))
    } else if rows == 5 {
        (100, (0, 1), (1, 5))
    } else {
        (1000, (1, 1), (1, 1))
    }
}

/// The menu's decision rules: Continue resumes the game, Exit quits, and
/// NewPuzzle asks for a fresh board of the next size with a difficulty
/// that scales with it. The caller owns the engine work of carrying the
/// command out.
pub fn menu_event_handler(entry: MenuEntry, current_size: Option<Coord>) -> (r: MenuCommand)
    requires
        current_size matches Some(c) ==> c.row < usize::MAX && c.col < usize::MAX,
    ensures
        entry is Continue ==> r == MenuCommand::ResumePuzzle,
        entry is Exit ==> r == MenuCommand::Exit,
        entry is NewPuzzle ==> {
            let size = spec_next_size(current_size);
            let d = spec_difficulty(size.row);
            r == (MenuCommand::StartPuzzle {
                size,
                n_moves: d.0,
                flip_ratio: d.1,
                rotation_ratio: d.2,
            })
        },
{
    match entry {
        MenuEntry::Continue => MenuCommand::ResumePuzzle,
        MenuEntry::Exit => MenuCommand::Exit,
        MenuEntry::NewPuzzle => {
            let size = match current_size {
                Some(c) => {
                    if c.row == 7 && c.col == 7 {
                        Coord { row: 3, col: 3 }
                    } else {
                        Coord { row: c.row + 1, col: c.col + 1 }
                    }
                },
                None => Coord { row: 3, col: 3 },
            };
            let (n_moves, flip_ratio, rotation_ratio): (usize, (u32, u32), (u32, u32)) =
                if size.row == 3 {
                (5, (0, 1), (0, 1))
            } else if size.row == 4 {
                (20, (0, 1), (0, 1))
            } else if size.row == 5 {
                (100, (0, 1), (1, 5))
            } else {
                (1000, (1, 1), (1, 1))
            };
            MenuCommand::StartPuzzle { size, n_moves, flip_ratio, rotation_ratio }
        },
    }
}

} // verus!
