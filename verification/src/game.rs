//! The round state machine.
//!
//! A round owns the station list, the search index, the set of guessed
//! stations, the target, the input buffer and the transient feedback
//! message. Submitting a guess resolves the input, marks the resolved
//! stations as guessed and detects a win by exact identifier match;
//! restarting clears the guesses and draws a fresh uniformly-random target.
//! The input buffer is cleared only by a recognized guess; an unrecognized
//! one leaves it in place. Time enters only as an argument: callers pass
//! the current time in milliseconds, and feedback expiry is a pure function
//! of it.

use vstd::prelude::*;

use rand::Rng;
use rand::rngs::ThreadRng;

use crate::colour::{Rgb, Rgba};
use crate::resolver::StationIndex;
use crate::stations::Station;

verus! {

/// The random generator type of the `rand` crate, opaque to verification.
#[verifier::external_type_specification]
#[verifier::external_body]
pub struct ExThreadRng(ThreadRng);

/// Relies on rand::Rng::gen_range over the range `0..n`: the result lies in
/// that range, uniformly drawn. The range must be nonempty, or the call
/// panics.
#[verifier::external_body]
fn gen_below(rng: &mut ThreadRng, n: usize) -> (r: usize)
    requires
        n > 0,
    ensures
        r < n,
{
    rng.gen_range(0..n)
}

/// How long the feedback for an unrecognized guess is shown, in
/// milliseconds.
pub const UNKNOWN_FEEDBACK_MS: u64 = 2000;

/// How long the win feedback is shown, in milliseconds.
pub const WIN_FEEDBACK_MS: u64 = 15000;

/// A transient feedback message: text, ink colour, an optional full-frame
/// dimming backdrop, and the time window it renders in.
#[derive(Clone, Debug)]
pub struct Feedback {
    /// The message text.
    pub message: String,
    /// Ink colour of the message.
    pub colour: Rgb,
    /// Optional full-frame dimming backdrop behind the message.
    pub overlay: Option<Rgba>,
    /// When the message was created, in milliseconds.
    pub created_ms: u64,
    /// For how long the message renders, in milliseconds.
    pub duration_ms: u64,
}

impl Feedback {
    /// The message renders exactly while the elapsed time is strictly less
    /// than its duration.
    pub open spec fn visible_at(self, now_ms: u64) -> bool {
        now_ms < self.created_ms + self.duration_ms
    }

    /// A feedback message created now.
    pub fn new(message: &str, colour: Rgb, overlay: Option<Rgba>, duration_ms: u64, now_ms: u64)
        -> (f: Feedback)
        ensures
            f.message@ == message@,
            f.colour == colour,
            f.overlay == overlay,
            f.created_ms == now_ms,
            f.duration_ms == duration_ms,
    {
        Feedback {
            message: String::from_str(message),
            colour,
            overlay,
            created_ms: now_ms,
            duration_ms,
        }
    }

    /// Whether the message still renders at the given time: while the
    /// elapsed time is under the duration it does, and from the moment the
    /// duration has fully elapsed it does not, however often or rarely
    /// redraws happen.
    pub fn is_visible(&self, now_ms: u64) -> (v: bool)
        requires
            self.created_ms <= now_ms,
        ensures
            v == self.visible_at(now_ms),
    {
        now_ms - self.created_ms < self.duration_ms
    }
}

/// The feedback shown for a guess that resolves to no station.
pub open spec fn is_unknown_feedback(f: Feedback, now_ms: u64) -> bool {
    &&& f.message@ == "Unknown Station"@
    &&& f.colour == (Rgb { r: 200, g: 0, b: 0 })
    &&& f.overlay is None
    &&& f.created_ms == now_ms
    &&& f.duration_ms == UNKNOWN_FEEDBACK_MS
}

/// The feedback shown on a win: a long-lived message over a half-opaque
/// white backdrop.
pub open spec fn is_win_feedback(f: Feedback, now_ms: u64) -> bool {
    &&& f.message@ == "You Won!"@
    &&& f.colour == (Rgb { r: 0, g: 255, b: 0 })
    &&& f.overlay == Some(Rgba { r: 255, g: 255, b: 255, alpha_pm: 500 })
    &&& f.created_ms == now_ms
    &&& f.duration_ms == WIN_FEEDBACK_MS
}

/// Where a round stands.
#[derive(Clone, Copy, Debug, PartialEq, Eq, Structural)]
pub enum Phase {
    /// No target has been drawn yet.
    AwaitingTarget,
    /// A target is set and guesses are being taken.
    InProgress,
    /// The target was guessed.
    Won,
}

/// A player action, as the UI shell hands it to the round.
#[derive(Debug)]
pub enum Message {
    /// The input buffer changed.
    GuessInputChanged(String),
    /// The input buffer was submitted as a guess.
    GuessSubmitted,
    /// Start a fresh round.
    Restart,
    /// Concede: reveal every station without ending the round.
    GiveUp,
    /// Toggle the full-map view.
    ShowMap,
}

/// One round of the game.
pub struct Game {
    /// The reference dataset, fixed for the lifetime of the game.
    pub all_stations: Vec<Station>,
    /// The search index built over the dataset.
    pub search_engine: StationIndex,
    /// Which stations have been guessed; one flag per station.
    pub guessed_stations: Vec<bool>,
    /// The station to find, once one has been drawn.
    pub target_station: Option<usize>,
    /// Where the round stands.
    pub phase: Phase,
    /// The player's input buffer.
    pub station_input: String,
    /// The active feedback message, if any.
    pub feedback: Option<Feedback>,
    /// Whether the full map is being shown.
    pub viewing_map: bool,
}

impl Game {
    /// The set of guessed station identifiers.
    pub open spec fn guessed_set(self) -> Set<int> {
        Set::new(|i: int| 0 <= i < self.guessed_stations@.len() && self.guessed_stations@[i])
    }

    /// A well-formed round: one guess flag per station, an index built from
    /// the station list, a target that names a station once one is drawn,
    /// and stations whose data is in range.
    pub open spec fn wf(self) -> bool {
        &&& self.guessed_stations@.len() == self.all_stations@.len()
        &&& self.search_engine.wf()
        &&& self.search_engine.consistent_with(self.all_stations@)
        &&& match self.target_station {
            Some(t) => t < self.all_stations@.len(),
            None => true,
        }
        &&& (self.phase != Phase::AwaitingTarget ==> self.target_station is Some)
        &&& forall|i: int|
            0 <= i < self.all_stations@.len() ==> (#[trigger] self.all_stations@[i]).wf()
    }

    /// What stays untouched by every guess, concession and restart.
    pub open spec fn same_dataset(pre: Game, post: Game) -> bool {
        &&& post.all_stations == pre.all_stations
        &&& post.search_engine == pre.search_engine
        &&& post.guessed_stations@.len() == pre.guessed_stations@.len()
    }

    /// How applying a resolved guess changes the round. Nothing resolved:
    /// only the feedback changes, to the unknown-station message. Something
    /// resolved: the resolved stations join the guessed set, the input
    /// buffer clears, and when the target is among them the round is won —
    /// every station joins the guessed set as the reward, and the win
    /// feedback goes up.
    pub open spec fn apply_rel(pre: Game, post: Game, ids: Seq<usize>, now_ms: u64) -> bool {
        &&& Self::same_dataset(pre, post)
        &&& post.target_station == pre.target_station
        &&& post.viewing_map == pre.viewing_map
        &&& if ids.len() == 0 {
            &&& post.guessed_stations@ == pre.guessed_stations@
            &&& post.station_input@ == pre.station_input@
            &&& post.phase == pre.phase
            &&& match post.feedback {
                Some(f) => is_unknown_feedback(f, now_ms),
                None => false,
            }
        } else {
            let won = match pre.target_station {
                Some(t) => ids.contains(t),
                None => false,
            };
            &&& post.station_input@ == Seq::<char>::empty()
            &&& if won {
                &&& post.phase == Phase::Won
                &&& forall|i: int|
                    0 <= i < post.guessed_stations@.len() ==> post.guessed_stations@[i]
                &&& match post.feedback {
                    Some(f) => is_win_feedback(f, now_ms),
                    None => false,
                }
            } else {
                &&& post.phase == pre.phase
                &&& forall|i: int|
                    0 <= i < post.guessed_stations@.len() ==> post.guessed_stations@[i] == (
                    pre.guessed_stations@[i] || ids.contains(i as usize))
                &&& post.feedback == pre.feedback
            }
        }
    }

    /// How a restart changes the round: the guessed set empties, a fresh
    /// target is drawn, the feedback clears, and the round is in progress.
    /// The input buffer and the map-view toggle stay as they are.
    pub open spec fn restart_rel(pre: Game, post: Game) -> bool {
        &&& Self::same_dataset(pre, post)
        &&& forall|i: int| 0 <= i < post.guessed_stations@.len() ==> !post.guessed_stations@[i]
        &&& match post.target_station {
            Some(t) => t < post.all_stations@.len(),
            None => false,
        }
        &&& post.phase == Phase::InProgress
        &&& post.feedback is None
        &&& post.station_input == pre.station_input
        &&& post.viewing_map == pre.viewing_map
    }

    /// Starts the game over a station dataset: builds the index and opens
    /// the first round with a random target.
    pub fn new(all_stations: Vec<Station>, rng: &mut ThreadRng) -> (game: Game)
        requires
            all_stations@.len() > 0,
            forall|i: int| 0 <= i < all_stations@.len() ==> (#[trigger] all_stations@[i]).wf(),
        ensures
            game.wf(),
            game.all_stations@ == all_stations@,
            forall|i: int| 0 <= i < game.guessed_stations@.len() ==> !game.guessed_stations@[i],
            game.phase == Phase::InProgress,
            game.target_station is Some,
            game.feedback is None,
            game.station_input@ == Seq::<char>::empty(),
            !game.viewing_map,
    {
        let n = all_stations.len();
        let search_engine = StationIndex::build(&all_stations);
        let mut guessed_stations: Vec<bool> = Vec::new();
        let mut i: usize = 0;
        while i < n
            invariant
                0 <= i <= n,
                guessed_stations@.len() == i,
                forall|k: int| 0 <= k < i ==> !guessed_stations@[k],
            decreases n - i,
        {
            guessed_stations.push(false);
            i = i + 1;
        }
        let mut game = Game {
            all_stations,
            search_engine,
            guessed_stations,
            target_station: None,
            phase: Phase::AwaitingTarget,
            station_input: String::new(),
            feedback: None,
            viewing_map: false,
        };
        game.restart(rng);
        game
    }

    /// Replaces the input buffer.
    pub fn guess_input_changed(&mut self, input: String)
        ensures
            *final(self) == (Game { station_input: input, ..*old(self) }),
    {
        self.station_input = input;
    }

    /// Marks every station guessed.
    fn set_all_guessed(&mut self)
        ensures
            final(self).guessed_stations@.len() == old(self).guessed_stations@.len(),
            forall|i: int|
                0 <= i < final(self).guessed_stations@.len() ==> final(self).guessed_stations@[i],
            *final(self) == (Game {
                guessed_stations: final(self).guessed_stations,
                ..*old(self)
            }),
    {
        let n = self.guessed_stations.len();
        let mut i: usize = 0;
        while i < n
            invariant
                0 <= i <= n,
                n == self.guessed_stations@.len(),
                forall|k: int| 0 <= k < i ==> self.guessed_stations@[k],
                *self == (Game { guessed_stations: self.guessed_stations, ..*old(self) }),
            decreases n - i,
        {
            self.guessed_stations[i] = true;
            i = i + 1;
        }
    }

    /// Ends the round as won: puts the win feedback up and reveals every
    /// station as the reward.
    fn game_won(&mut self, now_ms: u64)
        ensures
            final(self).guessed_stations@.len() == old(self).guessed_stations@.len(),
            forall|i: int|
                0 <= i < final(self).guessed_stations@.len() ==> final(self).guessed_stations@[i],
            final(self).phase == Phase::Won,
            match final(self).feedback {
                Some(f) => is_win_feedback(f, now_ms),
                None => false,
            },
            *final(self) == (Game {
                guessed_stations: final(self).guessed_stations,
                phase: Phase::Won,
                feedback: final(self).feedback,
                ..*old(self)
            }),
    {
        self.feedback = Some(
            Feedback::new(
                "You Won!",
                Rgb { r: 0, g: 255, b: 0 },
                Some(Rgba { r: 255, g: 255, b: 255, alpha_pm: 500 }),
                WIN_FEEDBACK_MS,
                now_ms,
            ),
        );
        self.phase = Phase::Won;
        self.set_all_guessed();
    }

    /// Applies an already-resolved guess to the round.
    pub fn apply_guess(&mut self, ids: &Vec<usize>, now_ms: u64)
        requires
            old(self).wf(),
            forall|k: int|
                0 <= k < ids@.len() ==> (#[trigger] ids@[k]) < old(self).all_stations@.len(),
        ensures
            final(self).wf(),
            Self::apply_rel(*old(self), *final(self), ids@, now_ms),
    {
        if ids.len() == 0 {
            self.feedback = Some(
                Feedback::new(
                    "Unknown Station",
                    Rgb { r: 200, g: 0, b: 0 },
                    None,
                    UNKNOWN_FEEDBACK_MS,
                    now_ms,
                ),
            );
            return;
        }
        let n = ids.len();
        let mut i: usize = 0;
        let mut won = false;
        while i < n
            invariant
                0 <= i <= n,
                n == ids@.len(),
                old(self).wf(),
                forall|k: int|
                    0 <= k < ids@.len() ==> (#[trigger] ids@[k]) < old(self).all_stations@.len(),
                self.guessed_stations@.len() == old(self).guessed_stations@.len(),
                forall|j: int|
                    0 <= j < self.guessed_stations@.len() ==> self.guessed_stations@[j] == (old(
                        self,
                    ).guessed_stations@[j] || ids@.take(i as int).contains(j as usize)),
                won == (match old(self).target_station {
                    Some(t) => ids@.take(i as int).contains(t),
                    None => false,
                }),
                *self == (Game {
                    guessed_stations: self.guessed_stations,
                    ..*old(self)
                }),
            decreases n - i,
        {
            let id = ids[i];
            self.guessed_stations[id] = true;
            if let Some(t) = self.target_station {
                if id == t {
                    won = true;
                }
            }
            proof {
                let pre_take = ids@.take(i as int);
                let post_take = ids@.take(i + 1);
                assert(post_take =~= pre_take.push(id));
                assert forall|j: int|
                    0 <= j < self.guessed_stations@.len() implies self.guessed_stations@[j] == (old(
                    self,
                ).guessed_stations@[j] || post_take.contains(j as usize)) by {
                    if post_take.contains(j as usize) {
                        let w = choose|w: int| 0 <= w < post_take.len() && post_take[w] == j;
                        if w < pre_take.len() {
                            assert(pre_take.contains(j as usize));
                        }
                    }
                    if pre_take.contains(j as usize) {
                        let w = choose|w: int| 0 <= w < pre_take.len() && pre_take[w] == j;
                        assert(post_take[w] == j as usize);
                        assert(post_take.contains(j as usize));
                    }
                    if j == id {
                        assert(post_take[i as int] == id);
                        assert(post_take.contains(id));
                    }
                }
                if won {
                    let t = old(self).target_station->Some_0;
                    if !pre_take.contains(t) {
                        assert(post_take[i as int] == id);
                    }
                }
            }
            i = i + 1;
        }
        proof {
            assert(ids@.take(n as int) =~= ids@);
        }
        if won {
            self.game_won(now_ms);
        }
        self.station_input = String::new();
    }

    /// Resolves the input buffer and applies the outcome: the guessed set
    /// only grows, the phase moves to Won exactly when the target was
    /// resolved, and an unrecognized input leaves everything but the
    /// feedback alone.
    pub fn submit_guess(&mut self, now_ms: u64)
        requires
            old(self).wf(),
        ensures
            final(self).wf(),
            exists|ids: Seq<usize>| #[trigger] Self::apply_rel(*old(self), *final(self), ids, now_ms),
    {
        let ids = self.search_engine.resolve(self.station_input.as_str());
        self.apply_guess(&ids, now_ms);
    }

    /// Starts a fresh round: clears the guesses and the feedback and draws
    /// a new uniformly-random target.
    pub fn restart(&mut self, rng: &mut ThreadRng)
        requires
            old(self).wf(),
            old(self).all_stations@.len() > 0,
        ensures
            final(self).wf(),
            Self::restart_rel(*old(self), *final(self)),
    {
        let n = self.guessed_stations.len();
        let mut i: usize = 0;
        while i < n
            invariant
                0 <= i <= n,
                n == self.guessed_stations@.len(),
                forall|k: int| 0 <= k < i ==> !self.guessed_stations@[k],
                *self == (Game { guessed_stations: self.guessed_stations, ..*old(self) }),
            decreases n - i,
        {
            self.guessed_stations[i] = false;
            i = i + 1;
        }
        let random_idx = gen_below(rng, self.all_stations.len());
        self.target_station = Some(random_idx);
        self.phase = Phase::InProgress;
        self.feedback = None;
    }

    /// Concedes: reveals every station without changing the target, the
    /// phase or the feedback.
    pub fn give_up(&mut self)
        requires
            old(self).wf(),
        ensures
            final(self).wf(),
            Self::same_dataset(*old(self), *final(self)),
            forall|i: int|
                0 <= i < final(self).guessed_stations@.len() ==> final(self).guessed_stations@[i],
            *final(self) == (Game {
                guessed_stations: final(self).guessed_stations,
                ..*old(self)
            }),
    {
        self.set_all_guessed();
    }

    /// Toggles the full-map view.
    pub fn show_map(&mut self)
        ensures
            *final(self) == (Game { viewing_map: !old(self).viewing_map, ..*old(self) }),
    {
        self.viewing_map = !self.viewing_map;
    }

    /// Dispatches one player action.
    pub fn update(&mut self, message: Message, rng: &mut ThreadRng, now_ms: u64)
        requires
            old(self).wf(),
            old(self).all_stations@.len() > 0,
        ensures
            final(self).wf(),
            match message {
                Message::GuessInputChanged(input) => *final(self) == (Game {
                    station_input: input,
                    ..*old(self)
                }),
                Message::GuessSubmitted => exists|ids: Seq<usize>| #[trigger] Self::apply_rel(
                    *old(self),
                    *final(self),
                    ids,
                    now_ms,
                ),
                Message::Restart => Self::restart_rel(*old(self), *final(self)),
                Message::GiveUp => {
                    &&& Self::same_dataset(*old(self), *final(self))
                    &&& forall|i: int|
                        0 <= i < final(self).guessed_stations@.len()
                            ==> final(self).guessed_stations@[i]
                },
                Message::ShowMap => *final(self) == (Game {
                    viewing_map: !old(self).viewing_map,
                    ..*old(self)
                }),
            },
    {
        match message {
            Message::GuessInputChanged(input) => self.guess_input_changed(input),
            Message::GuessSubmitted => self.submit_guess(now_ms),
            Message::Restart => self.restart(rng),
            Message::GiveUp => self.give_up(),
            Message::ShowMap => self.show_map(),
        }
    }
}

/// Win detection: when the resolved identifiers include the target, the
/// round is won and every station ends up in the guessed set.
pub proof fn lemma_win_detection(pre: Game, post: Game, ids: Seq<usize>, now_ms: u64, t: usize)
    requires
        pre.wf(),
        Game::apply_rel(pre, post, ids, now_ms),
        pre.target_station == Some(t),
        ids.contains(t),
    ensures
        post.phase == Phase::Won,
        forall|i: int|
            0 <= i < post.guessed_stations@.len() ==> post.guessed_set().contains(i),
{
    assert(ids.len() > 0);
}

/// Restart idempotence: after a restart the guessed set is empty and a
/// target is drawn, and restarting twice in a row leaves the round in that
/// same freshly-started shape after either call.
pub proof fn lemma_restart_idempotent(s1: Game, s2: Game, s3: Game)
    requires
        Game::restart_rel(s1, s2),
        Game::restart_rel(s2, s3),
    ensures
        s2.guessed_set() =~= Set::empty(),
        s3.guessed_set() =~= Set::empty(),
        s2.phase == Phase::InProgress && s3.phase == Phase::InProgress,
        s2.target_station is Some && s3.target_station is Some,
        s2.feedback is None && s3.feedback is None,
{
}

} // verus!
