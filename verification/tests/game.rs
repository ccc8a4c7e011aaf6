use damdara::battle::Battle;
use damdara::battle_types::PlayerAction;
use damdara::buffer_output::BufferOutput;
use damdara::growth_type::calculate_growth_name_total;
use damdara::monster::Monster;
use damdara::monster_data::{ActionType, MonsterAction};
use damdara::monster_utils::{
    build_monster_name_index_map, choose_action, create_all_monsters, get_monster_by_name,
    list_monster_names,
};
use damdara::player::{Player, PlayerArgs};
use damdara::player_input::PlayerInput;
use damdara::random_utils::{generate_in_range, random_success_by_percent};
use damdara::spell::Spell;
use damdara::spell_utils::get_spell_info;
use damdara::status_utils::{get_level_by_exp, get_status_by_level};
use damdara::web_input::WebInput;

#[test]
fn test_normal_name() {
    assert_eq!(calculate_growth_name_total("ゆうてい"), 1);
    assert_eq!(calculate_growth_name_total("みやおう"), 0);
}

#[test]
fn test_dakuten_handakuten() {
    assert_eq!(calculate_growth_name_total("だい"), 6);
    assert_eq!(calculate_growth_name_total("ぴぴ"), 0);
    assert_eq!(calculate_growth_name_total("ばば"), 12);
}

#[test]
fn test_zero_one() {
    assert_eq!(calculate_growth_name_total("０きぬら"), 0);
    assert_eq!(calculate_growth_name_total("きくぬら"), 1);
}

#[test]
fn test_more_than_5_characters() {
    assert_eq!(calculate_growth_name_total("あいうえお"), 14);
}

#[test]
fn test_contains_invalid_characters() {
    assert_eq!(calculate_growth_name_total("かXなY"), 11);
}

#[test]
fn test_moji_lenght() {
    assert_eq!(calculate_growth_name_total("う"), 9);
    assert_eq!(calculate_growth_name_total("ゆう"), 8);
    assert_eq!(calculate_growth_name_total("やおう"), 6);
}

#[test]
fn test_web_input_new() {
    let input = WebInput::new();
    assert!(!input.has_pending_input());
    assert!(!input.has_pending_action());
}

#[test]
fn test_push_and_get_input() {
    let mut input = WebInput::new();
    input.push_input(5);
    input.push_input(3);
    assert!(input.has_pending_input());
    assert_eq!(input.get_player_input(10), 5);
    assert_eq!(input.get_player_input(10), 3);
    assert!(!input.has_pending_input());
}

#[test]
fn test_input_max_constraint() {
    let mut input = WebInput::new();
    input.push_input(15);
    assert_eq!(input.get_player_input(10), 10);
}

#[test]
fn test_push_and_get_action() {
    let mut input = WebInput::new();
    input.push_action(PlayerAction::Spell);
    input.push_action(PlayerAction::Escape);
    assert!(input.has_pending_action());
    assert_eq!(input.get_player_action(), PlayerAction::Spell);
    assert_eq!(input.get_player_action(), PlayerAction::Escape);
    assert!(!input.has_pending_action());
}

#[test]
fn test_default_values() {
    let mut input = WebInput::new();
    assert_eq!(input.get_player_input(10), 0);
    assert_eq!(input.get_player_action(), PlayerAction::Attack);
}

#[test]
fn test_clear() {
    let mut input = WebInput::new();
    input.push_input(5);
    input.push_action(PlayerAction::Item);
    assert!(input.has_pending_input());
    assert!(input.has_pending_action());
    input.clear();
    assert!(!input.has_pending_input());
    assert!(!input.has_pending_action());
}

#[test]
fn test_player_default_level() {
    let player = Player::new_with(PlayerArgs {
        name: Some("ゆうてい".to_string()),
        ..Default::default()
    });
    assert_eq!(player.name, "ゆうてい");
    assert_eq!(player.level(), 1);
    assert_eq!(player.exp, 0);
    assert!(player.hp > 0);
}

#[test]
fn test_player_with_level() {
    let player = Player::new_with(PlayerArgs {
        name: Some("みやおう".to_string()),
        level: Some(10),
        ..Default::default()
    });
    assert_eq!(player.level(), 10);
    assert_eq!(player.exp, get_status_by_level(10).unwrap().required_exp);
}

#[test]
fn test_player_with_exp() {
    let player = Player::new_with(PlayerArgs {
        name: Some("たけし".to_string()),
        exp: Some(8000),
        ..Default::default()
    });
    let expected_level = get_level_by_exp(8000);
    assert_eq!(player.level(), expected_level);
    assert_eq!(player.exp, 8000);
}

#[test]
fn test_player_with_level_and_exp() {
    let player = Player::new_with(PlayerArgs {
        name: Some("こういち".to_string()),
        level: Some(5),
        exp: Some(10000),
        gold: Some(20000),
        ..Default::default()
    });
    assert!(player.level() >= 5);
    assert_eq!(player.exp, 10000);
    assert_eq!(player.gold, 20000);
}

#[test]
fn test_player_maximize_password() {
    let mut player = Player::new("だい");
    player.maximize();
    let password = player.to_password_string().unwrap();
    assert_eq!(password, "へへみぞあうぞてえきいおくらちきこぜくゆ");
}

#[test]
fn test_player_status_parameter() {
    let mut player_1 = Player::new("だい");
    let player_1_status = player_1.status().unwrap();
    assert_eq!(player_1_status.strength, 4);
    assert_eq!(player_1_status.agility, 4);
    assert_eq!(player_1_status.max_hp, 14);
    assert_eq!(player_1_status.max_mp, 0);

    player_1.maximize();
    let player_1_max_status = player_1.status().unwrap();
    assert_eq!(player_1_max_status.strength, 127);
    assert_eq!(player_1_max_status.agility, 130);
    assert_eq!(player_1_max_status.max_hp, 190);
    assert_eq!(player_1_max_status.max_mp, 200);

    let mut player_2 = Player::new("ゆうてい");
    let player_2_status = player_2.status().unwrap();
    assert_eq!(player_2_status.strength, 4);
    assert_eq!(player_2_status.agility, 3);
    assert_eq!(player_2_status.max_hp, 15);
    assert_eq!(player_2_status.max_mp, 0);

    player_2.maximize();
    let player_2_max_status = player_2.status().unwrap();
    assert_eq!(player_2_max_status.strength, 140);
    assert_eq!(player_2_max_status.agility, 117);
    assert_eq!(player_2_max_status.max_hp, 210);
    assert_eq!(player_2_max_status.max_mp, 180);
}

#[test]
fn test_get_status_by_level() {
    let s = get_status_by_level(3).unwrap();
    assert_eq!(s.level, 3);
    assert_eq!(s.strength, 7);
    assert_eq!(s.spell, Some("ホイミ"));
    assert!(get_status_by_level(0).is_none());
    assert!(get_status_by_level(31).is_none());
}

#[test]
fn test_build_monster_name_index_map_contains_slime() {
    let map = build_monster_name_index_map();
    assert!(map.contains_key("スライム"));
}

#[test]
fn test_list_monster_names_count() {
    let names = list_monster_names();
    assert_eq!(names.len(), 40);
}

#[test]
fn test_list_monster_names_contains_slime() {
    let names = list_monster_names();
    assert!(names.contains(&"スライム"));
}

#[test]
fn test_monster_new_valid_index() {
    let monster = Monster::new(0);
    assert_eq!(monster.stats.name, "スライム");
}

#[test]
fn test_monster_new_invalid_index_defaults_to_slime() {
    let monster = Monster::new(999);
    assert_eq!(monster.stats.name, "スライム");
}

#[test]
fn test_create_all_monsters_length() {
    let monsters = create_all_monsters();
    assert_eq!(monsters.len(), 40);
}

#[test]
fn test_get_monster_by_name_existing() {
    let monster = get_monster_by_name("スライム");
    assert!(monster.is_some());
    assert_eq!(monster.unwrap().stats.name, "スライム");
}

#[test]
fn test_get_monster_by_name_non_existing() {
    let monster = get_monster_by_name("ファントム");
    assert!(monster.is_none());
}

#[test]
fn test_choose_action_always_selects_high_rate() {
    let candidates = vec![
        MonsterAction { ab_type: "A", action: ActionType::Spell(Spell::Hoimi), rate: 100 },
        MonsterAction { ab_type: "B", action: ActionType::Spell(Spell::Mahoton), rate: 0 },
    ];
    for _ in 0..10 {
        let result = choose_action(&candidates);
        assert!(result.is_some());
        assert_eq!(result.unwrap().ab_type, "A");
    }
}

#[test]
fn test_choose_action_none_when_all_zero() {
    let candidates = vec![
        MonsterAction { ab_type: "A", action: ActionType::Spell(Spell::Hoimi), rate: 0 },
        MonsterAction { ab_type: "B", action: ActionType::Spell(Spell::Mahoton), rate: 0 },
    ];
    for _ in 0..10 {
        let result = choose_action(&candidates);
        assert!(result.is_none());
    }
}

#[test]
fn test_monster_no_support_magic() {
    let monster = Monster::new(0);
    assert!(!monster.has_support_magic());
}

#[test]
fn test_monster_with_support_magic() {
    let monster = Monster::new(26);
    assert!(monster.has_support_magic());
}

#[test]
fn test_monster_has_no_attack_spells() {
    let slime = Monster::new(0);
    let attacks = slime.attack_spells_actions();
    assert!(attacks.is_empty());
}

#[test]
fn test_monster_has_attack_spells() {
    let dragonlord = Monster::new(39);
    let attacks = dragonlord.attack_spells_actions();
    assert!(!attacks.is_empty());
    let found = attacks.iter().any(|action| match &action.action {
        ActionType::Special(name) => *name == "ほのお(強)",
        _ => false,
    });
    assert!(found);
}

#[test]
fn test_random_success_by_percent_50() {
    let trials = 10_000;
    let mut success_count = 0;
    for _ in 0..trials {
        if random_success_by_percent(5000) {
            success_count += 1;
        }
    }
    let success_rate = success_count as f64 / trials as f64;
    assert!((0.45..=0.55).contains(&success_rate));
}

#[test]
fn test_real_player_high_agility() {
    let player = Player::new_with(PlayerArgs {
        name: Some("ゆうてい".to_string()),
        exp: Some(3000),
        ..Default::default()
    });
    let monster = Monster::new(0);
    let battle = Battle::new(player, monster, WebInput::new(), BufferOutput::new());
    let mut player_first = 0;
    for _ in 0..1000 {
        if battle.player_goes_first() {
            player_first += 1;
        }
    }
    assert!(player_first > 700);
}

#[test]
fn test_decide_enemy_action_for_all_monsters() {
    for index in 0..40 {
        let monster = Monster::new(index);
        let player = Player::new("ゆうてい");
        let battle = Battle::new(player, monster, WebInput::new(), BufferOutput::new());
        let action = battle.decide_enemy_action();
        match action {
            damdara::battle_types::EnemyAction::Attack
            | damdara::battle_types::EnemyAction::Escape
            | damdara::battle_types::EnemyAction::Special(_) => {}
        }
    }
}

#[test]
fn test_generate_in_range_bounds() {
    for _ in 0..1000 {
        let v = generate_in_range(23, 30);
        assert!((23..=30).contains(&v));
    }
    assert_eq!(generate_in_range(7, 7), 7);
    assert_eq!(generate_in_range(9, 3), 9);
}

#[test]
fn test_damage_formulas_stay_in_byte_range() {
    let player = Player::new_with(PlayerArgs {
        name: Some("ゆうてい".to_string()),
        exp: Some(65535),
        weapon: Some(7),
        ..Default::default()
    });
    for draw in [0u8, 1, 127, 254, 255] {
        for defense in [0u8, 3, 100, 255] {
            let d = player.normal_damage_with(defense, draw);
            assert!(d <= 127);
        }
        let c = player.critical_damage_with(draw);
        assert!(c as u16 <= 255);
    }
    let monster = Monster::new(39);
    for draw in [0u8, 128, 255] {
        for defense in [0u8, 50, 255] {
            let d = monster.normal_damage_with(defense, draw);
            assert!(d <= 127);
        }
    }
}

#[test]
fn test_sleep_wake_rate_about_one_third() {
    let trials = 10_000;
    let mut wakes = 0;
    for _ in 0..trials {
        if random_success_by_percent(3333) {
            wakes += 1;
        }
    }
    let rate = wakes as f64 / trials as f64;
    assert!((0.2833..=0.3833).contains(&rate), "wake rate {} out of tolerance", rate);
}

#[test]
fn test_attack_only_battle_never_loses() {
    let mut kills = 0;
    let trials = 200;
    for _ in 0..trials {
        let mut player = Player::new_with(PlayerArgs {
            name: Some("ゆうてい".to_string()),
            exp: Some(2900),
            ..Default::default()
        });
        player.hp = 50;
        let mut monster = Monster::new(0);
        monster.hp = 3;
        let mut battle = Battle::new(player, monster, WebInput::new(), BufferOutput::new());
        battle.start();
        assert!(!battle.is_battle_continue());
        assert!(battle.player.hp > 0, "the player must never lose this match");
        if battle.monster.hp == 0 {
            kills += 1;
        }
    }
    assert!(kills * 100 >= trials * 99, "only {} kills in {} trials", kills, trials);
}

#[test]
fn test_sealed_heal_consumes_mp_but_leaves_hp() {
    let mut player = Player::new_with(PlayerArgs {
        name: Some("ゆうてい".to_string()),
        exp: Some(110),
        ..Default::default()
    });
    player.mp = 20;
    player.hp = 1;
    let monster = Monster::new(0);
    let mut battle = Battle::new(player, monster, WebInput::new(), BufferOutput::new());
    battle.player_state.seal = true;
    let info = get_spell_info(Spell::Hoimi).unwrap();
    let mp_before = battle.player.mp;
    let hp_before = battle.player.hp;
    let done = battle.cast_selected_spell(info);
    assert!(done);
    assert_eq!(battle.player.mp, mp_before - info.mp_cost);
    assert_eq!(battle.player.hp, hp_before);
    let lines = &battle.messages.messages;
    assert!(lines.iter().any(|l| l == "しかし じゅもんは ふうじこまれている！"));
    assert!(!lines.iter().any(|l| l.contains("かいふく")));
}

#[test]
fn test_item_menu_return_keeps_state() {
    let mut player = Player::new("ゆうてい");
    player.herbs = 2;
    let monster = Monster::new(0);
    let mut input = WebInput::new();
    input.push_input(0);
    let mut battle = Battle::new(player, monster, input, BufferOutput::new());
    let hp = battle.player.hp;
    let mp = battle.player.mp;
    let herbs = battle.player.herbs;
    let done = battle.player_action_item();
    assert!(!done, "the return entry must not consume the turn");
    assert_eq!(battle.player.hp, hp);
    assert_eq!(battle.player.mp, mp);
    assert_eq!(battle.player.herbs, herbs);
    assert!(!battle.player_state.sleep && !battle.player_state.seal && !battle.player_state.escaped);
    assert!(!battle.monster_state.sleep && !battle.monster_state.seal && !battle.monster_state.escaped);
}

#[test]
fn test_password_round_trip_restores_player() {
    let mut player = Player::new("だい");
    player.maximize();
    let password = player.to_password_string().unwrap();
    let restored = Player::from_password_string(&password).unwrap();
    assert_eq!(restored.name, player.name);
    assert_eq!(restored.exp, player.exp);
    assert_eq!(restored.gold, player.gold);
    assert_eq!(restored.weapon, player.weapon);
    assert_eq!(restored.armor, player.armor);
    assert_eq!(restored.shield, player.shield);
    assert_eq!(restored.herbs, player.herbs);
    assert_eq!(restored.keys, player.keys);
}

#[test]
fn test_herb_heals_and_is_spent() {
    let mut player = Player::new_with(PlayerArgs {
        name: Some("ゆうてい".to_string()),
        exp: Some(2900),
        herbs: Some(3),
        ..Default::default()
    });
    player.hp = 10;
    let max_hp = player.max_hp();
    player.use_herbs();
    assert_eq!(player.herbs, 2);
    assert!(player.hp >= 10 && player.hp <= max_hp.max(10));
}
