use emoji_bf::Command;
use emoji_bf::dialect::decode_symbols;

fn all_commands() -> Vec<Command> {
    vec![
        Command::IncP,
        Command::DecP,
        Command::IncB,
        Command::DecB,
        Command::Out,
        Command::In,
        Command::Begin,
        Command::End,
    ]
}

fn intersection_count(a: &[char], b: &[char]) -> usize {
    let mut n = 0;
    for x in a {
        for y in b {
            if x == y {
                n += 1;
            }
        }
    }
    n
}

#[test]
fn test_intersect() {
    let carnivores = decode_symbols(Command::In);
    let herbivores = decode_symbols(Command::Out);
    assert_eq!(intersection_count(&carnivores, &herbivores), 0);
    let happy = decode_symbols(Command::IncP);
    let sad = decode_symbols(Command::DecP);
    assert_eq!(intersection_count(&happy, &sad), 0);
    let women = decode_symbols(Command::Begin);
    let men = decode_symbols(Command::End);
    assert_eq!(intersection_count(&women, &men), 0);
}

#[test]
fn test_all_symbol_sets_pairwise_disjoint() {
    // Exhaustive, not sampled: no character of any dialect decodes to two
    // distinct instructions.
    let cmds = all_commands();
    for a in &cmds {
        for b in &cmds {
            if a != b {
                let sa = decode_symbols(*a);
                let sb = decode_symbols(*b);
                assert_eq!(intersection_count(&sa, &sb), 0);
            }
        }
    }
}

#[test]
fn test_every_symbol_decodes_to_its_instruction() {
    // Per-symbol round trip: decoding any accepted symbol of an
    // instruction, from any dialect, yields that instruction back.
    for cmd in all_commands() {
        for c in decode_symbols(cmd) {
            assert_eq!(Command::from_char(c), Some(cmd));
        }
    }
}

#[test]
fn test_fixed_dialect_symbols_round_trip() {
    for cmd in all_commands() {
        assert_eq!(Command::from_char(cmd.as_char_classic()), Some(cmd));
        assert_eq!(Command::from_char(cmd.as_char_emoji_hand()), Some(cmd));
    }
}

#[test]
fn test_random_symbol_round_trips_by_kind() {
    for cmd in all_commands() {
        for _ in 0..32 {
            let c = cmd.as_char_emoji_random();
            assert_eq!(Command::from_char(c), Some(cmd));
        }
    }
}

#[test]
fn test_comment_characters_decode_to_nothing() {
    for c in ['a', ' ', '\n', '0', '🚗', '🌍'] {
        assert_eq!(Command::from_char(c), None);
    }
}

#[test]
fn test_symbol_table_sizes() {
    // classic + hands + themed family (+ standalone glyph where one exists)
    assert_eq!(decode_symbols(Command::IncP).len(), 2 + 26);
    assert_eq!(decode_symbols(Command::DecP).len(), 2 + 27);
    assert_eq!(decode_symbols(Command::In).len(), 2 + 29);
    assert_eq!(decode_symbols(Command::Out).len(), 2 + 50);
    assert_eq!(decode_symbols(Command::Begin).len(), 2 + 8 + 1);
    assert_eq!(decode_symbols(Command::End).len(), 2 + 5 + 1);
    assert_eq!(decode_symbols(Command::IncB).len(), 2 + 18 + 1);
    assert_eq!(decode_symbols(Command::DecB).len(), 2 + 7);
}
