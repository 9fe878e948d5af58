use std::collections::VecDeque;
use vstd::multiset::Multiset;
use vstd::prelude::*;

verus! {

/// One of the three pegs, ordered left to right.
#[derive(Copy, Clone, PartialEq, Eq, Debug, Structural)]
pub enum PossibleTowers {
    Left,
    Middle,
    Right,
}

/// The peg to the right of `t`, staying at the rightmost one.
pub open spec fn next_tower(t: PossibleTowers) -> PossibleTowers {
    match t {
        PossibleTowers::Left => PossibleTowers::Middle,
        _ => PossibleTowers::Right,
    }
}

/// The peg to the left of `t`, staying at the leftmost one.
pub open spec fn previous_tower(t: PossibleTowers) -> PossibleTowers {
    match t {
        PossibleTowers::Right => PossibleTowers::Middle,
        _ => PossibleTowers::Left,
    }
}

/// Position of a peg counted from the left, starting at zero.
pub open spec fn tower_ordinal(t: PossibleTowers) -> nat {
    match t {
        PossibleTowers::Left => 0,
        PossibleTowers::Middle => 1,
        PossibleTowers::Right => 2,
    }
}

impl PossibleTowers {
    /// Slot of this peg in a five-column screen layout whose first and last
    /// columns are margins.
    pub fn into_game_index(self) -> (r: usize)
        ensures
            r == 1 + tower_ordinal(self),
    {
        match self {
            PossibleTowers::Left => 1,
            PossibleTowers::Middle => 2,
            PossibleTowers::Right => 3,
        }
    }
}

/// Widest a disc may be, as a percentage of its peg's width.
pub const MAX_DISC_WIDTH: u16 = 100;

/// A disc; only its width, a percentage of the peg's width, matters.
pub struct TowerDisck {
    width_percent: u16,
}

impl TowerDisck {
    #[verifier::type_invariant]
    spec fn fits(&self) -> bool {
        self.width_percent <= MAX_DISC_WIDTH
    }

    pub closed spec fn spec_width(&self) -> u16 {
        self.width_percent
    }

    pub fn new(width_percent: u16) -> (r: Self)
        requires
            width_percent <= MAX_DISC_WIDTH,
        ensures
            r.spec_width() == width_percent,
    {
        TowerDisck { width_percent }
    }

    pub fn width(&self) -> (r: u16)
        ensures
            r == self.spec_width(),
            r <= MAX_DISC_WIDTH,
    {
        proof {
            use_type_invariant(self);
        }
        self.width_percent
    }

    /// Empty space, in percent of the peg's width, on each side of the disc
    /// when it is drawn centred.
    pub fn side_padding(&self) -> (r: u16)
        ensures
            r == 50 - self.spec_width() / 2,
    {
        proof {
            use_type_invariant(self);
        }
        50 - self.width_percent / 2
    }
}

/// Widths of a stack of discs, read from the top down.
pub open spec fn widths_of(discks: Seq<TowerDisck>) -> Seq<u16> {
    discks.map_values(|d: TowerDisck| d.spec_width())
}

/// A peg and the stack of discs on it; the front of the stack is its top.
pub struct Tower {
    position: PossibleTowers,
    discks: VecDeque<TowerDisck>,
}

impl View for Tower {
    /// Widths of the discs, from the top down.
    type V = Seq<u16>;

    closed spec fn view(&self) -> Seq<u16> {
        widths_of(self.discks@)
    }
}

impl Tower {
    pub closed spec fn spec_position(&self) -> PossibleTowers {
        self.position
    }

    pub fn new(position: PossibleTowers, discks: VecDeque<TowerDisck>) -> (r: Self)
        ensures
            r.spec_position() == position,
            r@ == widths_of(discks@),
    {
        Tower { position, discks }
    }

    pub fn position(&self) -> (r: PossibleTowers)
        ensures
            r == self.spec_position(),
    {
        self.position
    }

    pub fn len(&self) -> (r: usize)
        ensures
            r == self@.len(),
    {
        self.discks.len()
    }

    pub fn is_empty(&self) -> (r: bool)
        ensures
            r == (self@.len() == 0),
    {
        self.discks.len() == 0
    }

    /// The `i`-th disc counted from the top, starting at zero.
    pub fn disc(&self, i: usize) -> (r: &TowerDisck)
        requires
            i < self@.len(),
        ensures
            r.spec_width() == self@[i as int],
    {
        &self.discks[i]
    }

    /// Widths of the discs, from the top down.
    pub fn widths(&self) -> (r: Vec<u16>)
        ensures
            r@ == self@,
    {
        let mut r: Vec<u16> = Vec::new();
        let n = self.discks.len();
        let mut i: usize = 0;
        while i < n
            invariant
                n == self@.len(),
                i <= n,
                r@ == self@.subrange(0, i as int),
            decreases n - i,
        {
            r.push(self.discks[i].width());
            i = i + 1;
            assert(r@ =~= self@.subrange(0, i as int));
        }
        assert(r@ =~= self@);
        r
    }

    /// Places a disc on top, whatever lies below it.
    pub fn push_top(&mut self, disck: TowerDisck)
        ensures
            final(self).spec_position() == old(self).spec_position(),
            final(self)@ == seq![disck.spec_width()] + old(self)@,
    {
        self.discks.push_front(disck);
        assert(self@ =~= seq![disck.spec_width()] + old(self)@);
    }

    /// Takes the top disc off.
    pub fn pop_top(&mut self) -> (r: TowerDisck)
        requires
            old(self)@.len() > 0,
        ensures
            final(self).spec_position() == old(self).spec_position(),
            r.spec_width() == old(self)@[0],
            final(self)@ == old(self)@.drop_first(),
    {
        let r = self.discks.pop_front().unwrap();
        assert(self@ =~= old(self)@.drop_first());
        r
    }
}

/// Number of discs in play.
pub const NUMBER_OF_DISCKS: usize = 4;

/// Whether a stack holds every disc with widths that never shrink from the
/// top down (equal neighbours allowed).
pub open spec fn is_winning_stack(s: Seq<u16>) -> bool {
    &&& s.len() == NUMBER_OF_DISCKS
    &&& forall|i: int| 0 <= i && i + 1 < s.len() ==> #[trigger] s[i] <= s[i + 1]
}

/// An input turned into a command by whoever drives the game.
#[derive(Copy, Clone, PartialEq, Eq, Debug, Structural)]
pub enum Command {
    PointNext,
    PointPrevious,
    Select,
    Restart,
    Quit,
}

/// The game as plain values: three stacks of widths read from the top down,
/// the pointer, the armed peg and the finished flag.
pub struct GameView {
    pub left: Seq<u16>,
    pub middle: Seq<u16>,
    pub right: Seq<u16>,
    pub pointer: PossibleTowers,
    pub armed: Option<PossibleTowers>,
    pub finished: bool,
}

/// The starting position: every disc on the middle peg, narrowest on top.
pub open spec fn initial_view() -> GameView {
    GameView {
        left: Seq::empty(),
        middle: seq![25u16, 45u16, 65u16, 85u16],
        right: Seq::empty(),
        pointer: PossibleTowers::Middle,
        armed: None,
        finished: false,
    }
}

impl GameView {
    pub open spec fn stack(self, t: PossibleTowers) -> Seq<u16> {
        match t {
            PossibleTowers::Left => self.left,
            PossibleTowers::Middle => self.middle,
            PossibleTowers::Right => self.right,
        }
    }

    pub open spec fn with_stack(self, t: PossibleTowers, s: Seq<u16>) -> GameView {
        match t {
            PossibleTowers::Left => GameView { left: s, ..self },
            PossibleTowers::Middle => GameView { middle: s, ..self },
            PossibleTowers::Right => GameView { right: s, ..self },
        }
    }

    /// An armed peg always has a disc to give.
    pub open spec fn armed_ok(self) -> bool {
        match self.armed {
            Some(t) => self.stack(t).len() > 0,
            None => true,
        }
    }

    pub open spec fn disc_count(self) -> nat {
        self.left.len() + self.middle.len() + self.right.len()
    }

    /// Every disc in play, by width, wherever it lies.
    pub open spec fn discs(self) -> Multiset<u16> {
        self.left.to_multiset().add(self.middle.to_multiset()).add(self.right.to_multiset())
    }

    pub open spec fn advanced(self) -> GameView {
        GameView { pointer: next_tower(self.pointer), ..self }
    }

    pub open spec fn retreated(self) -> GameView {
        GameView { pointer: previous_tower(self.pointer), ..self }
    }

    /// The select command: arm the pointed peg if it holds a disc, or, with
    /// a peg armed, move its top disc onto the pointed peg and disarm.
    pub open spec fn activated(self) -> GameView {
        match self.armed {
            Some(src) => {
                let moved = self.stack(src)[0];
                let lifted = self.with_stack(src, self.stack(src).drop_first());
                let placed = lifted.with_stack(
                    self.pointer,
                    seq![moved] + lifted.stack(self.pointer),
                );
                GameView { armed: None, ..placed }
            },
            None => if self.stack(self.pointer).len() > 0 {
                GameView { armed: Some(self.pointer), ..self }
            } else {
                self
            },
        }
    }

    /// The finished flag recomputed: the left or the right peg holds a
    /// winning stack.
    pub open spec fn evaluated(self) -> GameView {
        GameView { finished: is_winning_stack(self.left) || is_winning_stack(self.right), ..self }
    }

    /// The effect of one command; once the game is finished only a restart
    /// changes it.
    pub open spec fn after(self, c: Command) -> GameView {
        match c {
            Command::Restart => initial_view(),
            Command::Quit => self,
            _ => if self.finished {
                self
            } else {
                match c {
                    Command::PointNext => self.advanced(),
                    Command::PointPrevious => self.retreated(),
                    _ => self.activated().evaluated(),
                }
            },
        }
    }

    /// The effect of a sequence of commands, first to last.
    pub open spec fn after_all(self, cmds: Seq<Command>) -> GameView
        decreases cmds.len(),
    {
        if cmds.len() == 0 {
            self
        } else {
            self.after(cmds[0]).after_all(cmds.drop_first())
        }
    }
}

/// The game: three pegs, a pointer, the peg armed as the source of a move,
/// and whether the puzzle is solved.
pub struct Game {
    pub left_tower: Tower,
    pub middle_tower: Tower,
    pub right_tower: Tower,
    pub pointing_to_tower: PossibleTowers,
    pub last_selected_tower: Option<PossibleTowers>,
    pub is_finished: bool,
}

impl View for Game {
    type V = GameView;

    open spec fn view(&self) -> GameView {
        GameView {
            left: self.left_tower@,
            middle: self.middle_tower@,
            right: self.right_tower@,
            pointer: self.pointing_to_tower,
            armed: self.last_selected_tower,
            finished: self.is_finished,
        }
    }
}

impl Game {
    /// Each peg sits at its own position, and an armed peg holds a disc.
    pub open spec fn wf(&self) -> bool {
        &&& self.left_tower.spec_position() == PossibleTowers::Left
        &&& self.middle_tower.spec_position() == PossibleTowers::Middle
        &&& self.right_tower.spec_position() == PossibleTowers::Right
        &&& self@.armed_ok()
    }

    pub open spec fn tower(&self, t: PossibleTowers) -> Tower {
        match t {
            PossibleTowers::Left => self.left_tower,
            PossibleTowers::Middle => self.middle_tower,
            PossibleTowers::Right => self.right_tower,
        }
    }

    pub open spec fn with_tower(self, t: PossibleTowers, tower: Tower) -> Game {
        match t {
            PossibleTowers::Left => Game { left_tower: tower, ..self },
            PossibleTowers::Middle => Game { middle_tower: tower, ..self },
            PossibleTowers::Right => Game { right_tower: tower, ..self },
        }
    }

    pub fn new() -> (r: Self)
        ensures
            r.wf(),
            r@ == initial_view(),
    {
        let mut middle: VecDeque<TowerDisck> = VecDeque::new();
        middle.push_back(TowerDisck::new(25));
        middle.push_back(TowerDisck::new(45));
        middle.push_back(TowerDisck::new(65));
        middle.push_back(TowerDisck::new(85));
        let g = Game {
            left_tower: Tower::new(PossibleTowers::Left, VecDeque::new()),
            middle_tower: Tower::new(PossibleTowers::Middle, middle),
            right_tower: Tower::new(PossibleTowers::Right, VecDeque::new()),
            pointing_to_tower: PossibleTowers::Middle,
            last_selected_tower: None,
            is_finished: false,
        };
        assert(g@.left =~= Seq::<u16>::empty());
        assert(g@.right =~= Seq::<u16>::empty());
        assert(g@.middle =~= seq![25u16, 45u16, 65u16, 85u16]);
        g
    }

    pub fn point_to_next(&mut self)
        requires
            old(self).wf(),
        ensures
            final(self).wf(),
            final(self)@ == old(self)@.advanced(),
    {
        self.pointing_to_tower = match self.pointing_to_tower {
            PossibleTowers::Left => PossibleTowers::Middle,
            _ => PossibleTowers::Right,
        };
    }

    pub fn point_to_previous(&mut self)
        requires
            old(self).wf(),
        ensures
            final(self).wf(),
            final(self)@ == old(self)@.retreated(),
    {
        self.pointing_to_tower = match self.pointing_to_tower {
            PossibleTowers::Right => PossibleTowers::Middle,
            _ => PossibleTowers::Left,
        };
    }

    fn tower_enum_to_ref(&mut self, tower_enum: PossibleTowers) -> (r: &mut Tower)
        ensures
            *r == old(self).tower(tower_enum),
            *final(self) == old(self).with_tower(tower_enum, *final(r)),
    {
        match tower_enum {
            PossibleTowers::Left => &mut self.left_tower,
            PossibleTowers::Middle => &mut self.middle_tower,
            PossibleTowers::Right => &mut self.right_tower,
        }
    }

    /// The select command; see `GameView::activated`.
    pub fn change_selection(&mut self)
        requires
            old(self).wf(),
        ensures
            final(self).wf(),
            final(self)@ == old(self)@.activated(),
    {
        match self.last_selected_tower {
            Some(last_selection) => {
                let top_disck = self.tower_enum_to_ref(last_selection).pop_top();
                let pointing = self.pointing_to_tower;
                self.tower_enum_to_ref(pointing).push_top(top_disck);
                self.last_selected_tower = None;
            },
            None => {
                let pointing = self.pointing_to_tower;
                if !self.tower_enum_to_ref(pointing).is_empty() {
                    self.last_selected_tower = Some(pointing);
                } else {
                    self.last_selected_tower = None;
                }
            },
        }
        assert(self@ =~= old(self)@.activated());
    }

    /// Recomputes the finished flag; nothing else changes.
    pub fn check_win_conditions(&mut self)
        ensures
            final(self)@ == old(self)@.evaluated(),
            final(self).left_tower == old(self).left_tower,
            final(self).middle_tower == old(self).middle_tower,
            final(self).right_tower == old(self).right_tower,
    {
        self.is_finished = self.check_win_conditions_for_one_tower(&self.left_tower)
            || self.check_win_conditions_for_one_tower(&self.right_tower);
    }

    fn check_win_conditions_for_one_tower(&self, t: &Tower) -> (r: bool)
        ensures
            r == is_winning_stack(t@),
    {
        let len = t.discks.len();
        if len == 0 || len != NUMBER_OF_DISCKS {
            return false;
        }
        let mut previous = t.discks[0].width();
        let mut i: usize = 1;
        while i < len
            invariant
                len == t@.len(),
                1 <= i <= len,
                previous == t@[i - 1],
                forall|j: int| 0 <= j && j + 1 < i ==> #[trigger] t@[j] <= t@[j + 1],
            decreases len - i,
        {
            let current = t.discks[i].width();
            if previous > current {
                return false;
            }
            previous = current;
            i = i + 1;
        }
        true
    }

    /// Whether the top disc of peg `t` is drawn as the source of a pending
    /// move.
    pub fn is_armed(&self, t: PossibleTowers) -> (r: bool)
        ensures
            r == (self@.armed == Some(t)),
    {
        match self.last_selected_tower {
            Some(armed) => armed == t,
            None => false,
        }
    }

    /// Applies one command and says whether play goes on. The pointer and
    /// select commands are ignored once the game is finished; a select is
    /// followed by a win check.
    pub fn handle(&mut self, cmd: Command) -> (running: bool)
        requires
            old(self).wf(),
        ensures
            final(self).wf(),
            final(self)@ == old(self)@.after(cmd),
            running == (cmd != Command::Quit),
    {
        match cmd {
            Command::Quit => {
                return false;
            },
            Command::Restart => {
                *self = Game::new();
            },
            Command::PointNext => {
                if !self.is_finished {
                    self.point_to_next();
                }
            },
            Command::PointPrevious => {
                if !self.is_finished {
                    self.point_to_previous();
                }
            },
            Command::Select => {
                if !self.is_finished {
                    self.change_selection();
                    self.check_win_conditions();
                }
            },
        }
        true
    }
}

} // verus!
