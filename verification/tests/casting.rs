use spellcast::object::Object;
use spellcast::upcast::{Upcast, UpcastFrom};
use spellcast::downcast::{Downcast, DowncastFrom, DowncastFromRef, DowncastRef};
use spellcast::convert::{Convert, ConvertInto, TryConvert, TryConvertInto};
use spellcast::veecast::{Veecast, VeecastRef};
use spellcast::players::{Bot, Control, Human, Player, BOT_ID, HUMAN_ID};

#[test]
fn it_works() {}

#[test]
fn type_id_reports_underlying_identity() {
    let h = Human { skill: 7 };
    let b = Bot { strength: 2 };
    assert_eq!(h.type_id(), HUMAN_ID);
    assert_eq!(b.type_id(), BOT_ID);
    assert_eq!(Player::Human(h).type_id(), HUMAN_ID);
    assert_eq!(Player::Bot(b).type_id(), BOT_ID);
}

#[test]
fn upcast_widens_without_changing_identity() {
    let h = Human { skill: 7 };
    let p: Player = h.upcast_ref();
    assert_eq!(p, Player::Human(h));
    assert_eq!(p.type_id(), h.type_id());

    let boxed: Box<Player> = Box::new(h).upcast();
    assert_eq!(*boxed, Player::Human(h));

    let q: Player = Player::upcast_from_ref(&h);
    assert_eq!(q, Player::Human(h));
    let boxed2: Box<Player> = Player::upcast_from(Box::new(h));
    assert_eq!(*boxed2, Player::Human(h));
}

#[test]
fn upcast_then_downcast_roundtrip() {
    let h = Human { skill: 7 };
    let p: Box<Player> = Box::new(h).upcast();
    let r: Result<Box<Human>, Box<Player>> = p.downcast();
    assert_eq!(*r.unwrap(), h);

    let p2: Player = h.upcast_ref();
    let back: Option<&Human> = p2.downcast_ref();
    assert_eq!(back, Some(&h));
}

#[test]
fn downcast_mismatch_fails_and_returns_handle_unchanged() {
    let b = Bot { strength: 2 };
    let p: Box<Player> = Box::new(b).upcast();
    let before = p.type_id();
    let r: Result<Box<Human>, Box<Player>> = p.downcast();
    let back = match r {
        Ok(_) => panic!("downcast to a foreign type must fail"),
        Err(back) => back,
    };
    assert_eq!(back.type_id(), before);
    assert_eq!(*back, Player::Bot(b));
}

#[test]
fn downcast_ref_mismatch_leaves_handle_usable() {
    let p = Player::Bot(Bot { strength: 2 });
    let before = p.type_id();
    let r: Option<&Human> = p.downcast_ref();
    assert!(r.is_none());
    assert_eq!(p.type_id(), before);
    assert_eq!(p, Player::Bot(Bot { strength: 2 }));
}

#[test]
fn downcast_from_matches_handle_side_spelling() {
    let p: Box<Player> = Box::new(Player::Human(Human { skill: 3 }));
    let r: Result<Box<Human>, Box<Player>> = Human::downcast_from(p);
    assert_eq!(*r.unwrap(), Human { skill: 3 });

    let q = Player::Human(Human { skill: 3 });
    assert_eq!(Human::downcast_from_ref(&q), Some(&Human { skill: 3 }));
}

#[test]
fn downcast_mut_writes_reach_the_handle() {
    let mut p = Player::Human(Human { skill: 1 });
    if let Some(h) = <Player as DowncastRef<Human>>::downcast_mut(&mut p) {
        h.skill = 8;
    } else {
        panic!("exact-type downcast must succeed");
    }
    assert_eq!(p, Player::Human(Human { skill: 8 }));
}

#[test]
fn identity_registration_downcasts_interface_to_itself() {
    let p: Box<Player> = Box::new(Player::Bot(Bot { strength: 5 }));
    let r: Result<Box<Player>, Box<Player>> = p.downcast();
    assert_eq!(*r.unwrap(), Player::Bot(Bot { strength: 5 }));
}

#[test]
fn convert_get_replaces_bot_with_human() {
    let mut player: Box<Player> = Box::new(Bot { strength: 3 }).upcast();
    assert!(!player.is_human());

    let human: &Human = Human::convert_get(&mut player);
    assert!(human.is_human());
    assert_eq!(*human, Human { skill: 3 });
    assert!(player.is_human());
    assert_eq!(player.type_id(), HUMAN_ID);
}

#[test]
fn convert_is_idempotent_by_identity_token() {
    let mut player: Box<Player> = Box::new(Bot { strength: 3 }).upcast();
    Human::convert(&mut player);
    let value_after_first = *player;

    let before_second = player.type_id();
    Human::convert(&mut player);
    let after_second = player.type_id();
    assert_eq!(before_second, after_second);
    assert_eq!(*player, value_after_first);
}

#[test]
fn identity_conversion_is_noop_by_identity_token() {
    let mut player: Box<Player> = Box::new(Human { skill: 5 }).upcast();
    let before = player.type_id();
    Human::convert(&mut player);
    assert_eq!(player.type_id(), before);
    assert_eq!(*player, Player::Human(Human { skill: 5 }));
}

#[test]
fn convert_from_always_runs_the_routine() {
    let p: Box<Player> = Box::new(Player::Bot(Bot { strength: 4 }));
    let h: Box<Human> = Human::convert_from(p);
    assert_eq!(*h, Human { skill: 4 });

    let q: Box<Player> = Box::new(Player::Human(Human { skill: 6 }));
    let hh: Box<Human> = Human::convert_from(q);
    assert_eq!(*hh, Human { skill: 6 });
}

#[test]
fn convert_get_mut_writes_reach_the_handle() {
    let mut player: Box<Player> = Box::new(Bot { strength: 3 }).upcast();
    let human: &mut Human = Human::convert_get_mut(&mut player);
    human.skill = 10;
    assert_eq!(*player, Player::Human(Human { skill: 10 }));
}

#[test]
fn try_convert_succeeds_like_convert() {
    let mut player: Box<Player> = Box::new(Bot { strength: 3 }).upcast();
    let ok = <Human as TryConvert<Player>>::try_convert(&mut player);
    assert!(ok);
    assert_eq!(*player, Player::Human(Human { skill: 3 }));

    let got = <Human as TryConvert<Player>>::try_convert_get(&mut player);
    assert_eq!(got, Some(&Human { skill: 3 }));
}

#[test]
fn try_convert_refusal_keeps_token_across_repeated_attempts() {
    let mut player: Box<Player> = Box::new(Human { skill: 5 }).upcast();
    let before = player.type_id();
    assert!(!<Bot as TryConvert<Player>>::try_convert(&mut player));
    assert_eq!(player.type_id(), before);
    assert!(!<Bot as TryConvert<Player>>::try_convert(&mut player));
    assert_eq!(player.type_id(), before);
    assert_eq!(*player, Player::Human(Human { skill: 5 }));
}

#[test]
fn try_convert_get_propagates_refusal() {
    let mut player: Box<Player> = Box::new(Human { skill: 5 }).upcast();
    let got: Option<&Bot> = <Bot as TryConvert<Player>>::try_convert_get(&mut player);
    assert!(got.is_none());
    assert_eq!(*player, Player::Human(Human { skill: 5 }));

    let none: Option<&mut Bot> = <Bot as TryConvert<Player>>::try_convert_get_mut(&mut player);
    assert!(none.is_none());
    assert_eq!(*player, Player::Human(Human { skill: 5 }));
}

#[test]
fn try_convert_from_reports_both_outcomes() {
    let p: Box<Player> = Box::new(Player::Bot(Bot { strength: 4 }));
    let r: Result<Box<Human>, Box<Player>> = Human::try_convert_from(p);
    assert_eq!(*r.unwrap(), Human { skill: 4 });

    let q: Box<Player> = Box::new(Player::Human(Human { skill: 6 }));
    let refused: Result<Box<Bot>, Box<Player>> = Bot::try_convert_from(q);
    match refused {
        Ok(_) => panic!("the routine always refuses"),
        Err(back) => assert_eq!(*back, Player::Human(Human { skill: 6 })),
    }
}

#[test]
fn conversion_routines_produce_the_declared_values() {
    let p = Player::Bot(Bot { strength: 9 });
    let h: Box<Human> = p.convert_into();
    assert_eq!(*h, Human { skill: 9 });

    let some: Option<Box<Human>> = p.try_convert_into();
    assert_eq!(some.map(|b| *b), Some(Human { skill: 9 }));
    let none: Option<Box<Bot>> = p.try_convert_into();
    assert!(none.is_none());
}

#[test]
fn veecast_equals_downcast_then_upcast() {
    // Success: the underlying value is the named intermediate type.
    let p: Box<Player> = Box::new(Player::Human(Human { skill: 4 }));
    let vee: Result<Box<Control>, Box<Player>> = p.veecast::<Human>();

    let q: Box<Player> = Box::new(Player::Human(Human { skill: 4 }));
    let manual: Result<Box<Control>, Box<Player>> = match Downcast::<Human, Player>::downcast(q) {
        Ok(mid) => Ok(mid.upcast()),
        Err(obj) => Err(obj),
    };
    assert_eq!(vee.unwrap(), manual.unwrap());

    // Failure: both paths hand the handle back unchanged.
    let p: Box<Player> = Box::new(Player::Bot(Bot { strength: 4 }));
    let vee: Result<Box<Control>, Box<Player>> = p.veecast::<Human>();
    let q: Box<Player> = Box::new(Player::Bot(Bot { strength: 4 }));
    let manual: Result<Box<Control>, Box<Player>> = match Downcast::<Human, Player>::downcast(q) {
        Ok(mid) => Ok(mid.upcast()),
        Err(obj) => Err(obj),
    };
    assert_eq!(vee.unwrap_err(), manual.unwrap_err());
}

#[test]
fn veecast_ref_bridges_unrelated_interfaces() {
    let p = Player::Human(Human { skill: 2 });
    let c: Option<Control> = p.veecast_ref::<Human>();
    assert_eq!(c, Some(Control::Human(Human { skill: 2 })));
    assert_eq!(c.unwrap().type_id(), p.type_id());

    let b = Player::Bot(Bot { strength: 1 });
    let none: Option<Control> = b.veecast_ref::<Human>();
    assert!(none.is_none());
    assert_eq!(b, Player::Bot(Bot { strength: 1 }));
}
