//! A small sample domain that exercises every protocol: two concrete
//! player types behind a player interface, and a second, unrelated
//! interface to bridge to.

use vstd::prelude::*;

use crate::object::Object;
use crate::is::Is;
use crate::downcast::DowncastFromRef;
use crate::convert::ConvertInto;
use crate::convert::TryConvertInto;

verus! {

/// Identity token of [`Human`].
pub const HUMAN_ID: u64 = 1;

/// Identity token of [`Bot`].
pub const BOT_ID: u64 = 2;

/// A sample concrete type: a human player.
#[derive(Clone, Copy, PartialEq, Eq, Structural, Debug)]
pub struct Human {
    pub skill: u64,
}

/// A sample concrete type: a scripted player.
#[derive(Clone, Copy, PartialEq, Eq, Structural, Debug)]
pub struct Bot {
    pub strength: u64,
}

/// A sample interface handle: any player, typed only by what every player
/// can do, with the concrete type erased.
#[derive(Clone, Copy, PartialEq, Eq, Structural, Debug)]
pub enum Player {
    Human(Human),
    Bot(Bot),
}

/// A second sample interface, unrelated to [`Player`]: anything that can be
/// steered directly. [`Human`] satisfies both, which is what lets a veecast
/// bridge the two interfaces through it.
#[derive(Clone, Copy, PartialEq, Eq, Structural, Debug)]
pub enum Control {
    Human(Human),
}

impl Human {
    /// The behavior a human answers to the player interface.
    pub fn is_human(&self) -> (r: bool)
        ensures
            r,
    {
        true
    }
}

impl Bot {
    /// The behavior a bot answers to the player interface.
    pub fn is_human(&self) -> (r: bool)
        ensures
            !r,
    {
        false
    }
}

impl Player {
    /// Interface-level behavior, dispatched to whichever concrete type the
    /// handle currently holds.
    pub fn is_human(&self) -> (r: bool)
        ensures
            r == (self.id_spec() == HUMAN_ID),
    {
        match self {
            Player::Human(h) => h.is_human(),
            Player::Bot(b) => b.is_human(),
        }
    }
}

impl Object for Human {
    open spec fn id_spec(&self) -> u64 {
        HUMAN_ID
    }

    fn type_id(&self) -> (t: u64) {
        HUMAN_ID
    }
}

impl Object for Bot {
    open spec fn id_spec(&self) -> u64 {
        BOT_ID
    }

    fn type_id(&self) -> (t: u64) {
        BOT_ID
    }
}

impl Object for Player {
    open spec fn id_spec(&self) -> u64 {
        match *self {
            Player::Human(h) => h.id_spec(),
            Player::Bot(b) => b.id_spec(),
        }
    }

    fn type_id(&self) -> (t: u64) {
        match self {
            Player::Human(h) => h.type_id(),
            Player::Bot(b) => b.type_id(),
        }
    }
}

impl Is<Player> for Human {
    open spec fn embed_spec(self) -> Player {
        Player::Human(self)
    }

    proof fn lemma_embed_preserves_id(self) {
    }

    fn embed(&self) -> (r: Player) {
        Player::Human(*self)
    }
}

impl Is<Player> for Bot {
    open spec fn embed_spec(self) -> Player {
        Player::Bot(self)
    }

    proof fn lemma_embed_preserves_id(self) {
    }

    fn embed(&self) -> (r: Player) {
        Player::Bot(*self)
    }
}

/// The identity subsumption: the interface viewed as its own broadest form.
impl Is<Player> for Player {
    open spec fn embed_spec(self) -> Player {
        self
    }

    proof fn lemma_embed_preserves_id(self) {
    }

    fn embed(&self) -> (r: Player) {
        *self
    }
}

impl DowncastFromRef<Player> for Human {
    open spec fn matches_spec(from: Player) -> bool {
        from is Human
    }

    open spec fn recover_spec(from: Player) -> Human {
        from->Human_0
    }

    proof fn lemma_embed_recover(self) {
    }

    proof fn lemma_recover_embed(from: Player) {
    }

    fn downcast_from_ref<'a>(from: &'a Player) -> (r: Option<&'a Human>) {
        match from {
            Player::Human(h) => Some(h),
            Player::Bot(_) => None,
        }
    }

    fn downcast_from_mut<'a>(from: &'a mut Player) -> (r: Option<&'a mut Human>) {
        match from {
            Player::Human(h) => Some(h),
            Player::Bot(_) => None,
        }
    }

    fn downcast_extract(from: Box<Player>) -> (r: Result<Box<Human>, Box<Player>>) {
        match *from {
            Player::Human(h) => Ok(Box::new(h)),
            Player::Bot(b) => Err(Box::new(Player::Bot(b))),
        }
    }
}

impl DowncastFromRef<Player> for Bot {
    open spec fn matches_spec(from: Player) -> bool {
        from is Bot
    }

    open spec fn recover_spec(from: Player) -> Bot {
        from->Bot_0
    }

    proof fn lemma_embed_recover(self) {
    }

    proof fn lemma_recover_embed(from: Player) {
    }

    fn downcast_from_ref<'a>(from: &'a Player) -> (r: Option<&'a Bot>) {
        match from {
            Player::Bot(b) => Some(b),
            Player::Human(_) => None,
        }
    }

    fn downcast_from_mut<'a>(from: &'a mut Player) -> (r: Option<&'a mut Bot>) {
        match from {
            Player::Bot(b) => Some(b),
            Player::Human(_) => None,
        }
    }

    fn downcast_extract(from: Box<Player>) -> (r: Result<Box<Bot>, Box<Player>>) {
        match *from {
            Player::Bot(b) => Ok(Box::new(b)),
            Player::Human(h) => Err(Box::new(Player::Human(h))),
        }
    }
}

/// The identity registration: the interface trivially downcasts to itself.
impl DowncastFromRef<Player> for Player {
    open spec fn matches_spec(from: Player) -> bool {
        true
    }

    open spec fn recover_spec(from: Player) -> Player {
        from
    }

    proof fn lemma_embed_recover(self) {
    }

    proof fn lemma_recover_embed(from: Player) {
    }

    fn downcast_from_ref<'a>(from: &'a Player) -> (r: Option<&'a Player>) {
        Some(from)
    }

    fn downcast_from_mut<'a>(from: &'a mut Player) -> (r: Option<&'a mut Player>) {
        Some(from)
    }

    fn downcast_extract(from: Box<Player>) -> (r: Result<Box<Player>, Box<Player>>) {
        Ok(from)
    }
}

impl Object for Control {
    open spec fn id_spec(&self) -> u64 {
        match *self {
            Control::Human(h) => h.id_spec(),
        }
    }

    fn type_id(&self) -> (t: u64) {
        match self {
            Control::Human(h) => h.type_id(),
        }
    }
}

impl Is<Control> for Human {
    open spec fn embed_spec(self) -> Control {
        Control::Human(self)
    }

    proof fn lemma_embed_preserves_id(self) {
    }

    fn embed(&self) -> (r: Control) {
        Control::Human(*self)
    }
}

/// The conversion routine behind `Convert<Player>` for [`Human`]: a human
/// stays itself, and a bot is replaced by a fresh human of equal ability.
impl ConvertInto<Human> for Player {
    open spec fn convert_into_spec(&self) -> Human {
        match *self {
            Player::Human(h) => h,
            Player::Bot(b) => Human { skill: b.strength },
        }
    }

    fn convert_into(&self) -> (r: Box<Human>) {
        match self {
            Player::Human(h) => Box::new(*h),
            Player::Bot(b) => Box::new(Human { skill: b.strength }),
        }
    }
}

/// The fallible counterpart of the routine above: it never refuses.
impl TryConvertInto<Human> for Player {
    open spec fn try_convert_into_spec(&self) -> Option<Human> {
        Some(self.convert_into_spec())
    }

    fn try_convert_into(&self) -> (r: Option<Box<Human>>) {
        Some(self.convert_into())
    }
}

/// A conversion routine that always refuses: nothing ever turns into a bot.
impl TryConvertInto<Bot> for Player {
    open spec fn try_convert_into_spec(&self) -> Option<Bot> {
        None
    }

    fn try_convert_into(&self) -> (r: Option<Box<Bot>>) {
        None
    }
}

} // verus!
