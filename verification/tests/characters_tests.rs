use fifo_queue::characters::{Character, CharacterType};

#[test]
fn test_character_not() {
    let c = Character {
        kind: CharacterType::Human,
        name: "Rengoku-san".to_string(),
    };

    assert_eq!(c.not().kind, CharacterType::Demon);
}

#[test]
fn test_character_mul() {
    let cd1 = Character {
        kind: CharacterType::Demon,
        name: "Demon1".to_string(),
    };
    let cd2 = Character {
        kind: CharacterType::Demon,
        name: "Demon2".to_string(),
    };
    let cd3 = Character {
        kind: CharacterType::Demon,
        name: "Demon3".to_string(),
    };
    let cd4 = Character {
        kind: CharacterType::Demon,
        name: "Demon4".to_string(),
    };

    let ch1 = Character {
        kind: CharacterType::Human,
        name: "Human1".to_string(),
    };
    let ch2 = Character {
        kind: CharacterType::Human,
        name: "Human2".to_string(),
    };
    let ch3 = Character {
        kind: CharacterType::Human,
        name: "Human3".to_string(),
    };
    let ch4 = Character {
        kind: CharacterType::Human,
        name: "Human4".to_string(),
    };

    let cdd = cd1.mul(cd2);
    let chh = ch1.mul(ch2);
    let cdh = cd3.mul(ch3);
    let chd = ch4.mul(cd4);

    assert_eq!(cdd.kind, CharacterType::Human);
    assert_eq!(cdd.name, "Demon1-Demon2");

    assert_eq!(chh.kind, CharacterType::Human);
    assert_eq!(chh.name, "Human1-Human2");

    assert_eq!(cdh.kind, CharacterType::Demon);
    assert_eq!(cdh.name, "Demon3-Human3");

    assert_eq!(chd.kind, CharacterType::Demon);
    assert_eq!(chd.name, "Human4-Demon4");
}

#[test]
fn negating_twice_restores_the_side() {
    let c = Character {
        kind: CharacterType::Demon,
        name: "Akaza".to_string(),
    };
    let back = c.not().not();
    assert_eq!(back.kind, CharacterType::Demon);
    assert_eq!(back.name, "Akaza");
}
