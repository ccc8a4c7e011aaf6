use vstd::prelude::*;

verus! {

use crate::battle_types::{BattleState, EnemyAction, PlayerAction};
use crate::digits::{push_char, spec_dec, u16_to_string};
use crate::message::BattleMessages;
use crate::message_output::MessageOutput;
use crate::monster::{spec_is_attack_action, spec_is_support_action, Monster};
use crate::monster_data::{ActionType, MonsterAction};
use crate::monster_utils::choose_action;
use crate::player::{ItemKind, Player, UnifiedItem};
use crate::status::Flags;
use crate::player_input::PlayerInput;
use crate::random_utils::{
    check_escape_success, get_escape_rand_max_by_monster_index, random_success_by_percent,
    random_success_by_ratio, spec_escape_rand_max, spec_escape_success,
};
use crate::spell::{spec_spell_info_list, Spell, SpellInfo};
use crate::spell_utils::{monster_action_effect, player_spell_effect, spec_is_weak_flame};
use crate::string_utils::str_eq;
use vstd::string::StringExecFns;

/// One running encounter: the two sides, their battle conditions, the
/// line buffer and the player's input source.
pub struct Battle<I: PlayerInput, O: MessageOutput> {
    pub player: Player,
    pub monster: Monster,
    pub player_state: BattleState,
    pub monster_state: BattleState,
    pub messages: BattleMessages<O>,
    pub input: I,
}

/// What one attack command does, for strike value `dmg`: the announce
/// line always lands, an optional critical line follows, and then either
/// the miss line with the monster untouched (`dmg == 0`) or the two
/// damage lines with the monster's hit points lowered by `dmg`, floored
/// at zero.
pub open spec fn spec_attack_outcome<I: PlayerInput, O: MessageOutput>(
    pre: Battle<I, O>,
    post: Battle<I, O>,
    dmg: int,
) -> bool {
    let lines0 = pre.messages.lines();
    let announce = pre.player.name@ + " のこうげき！"@;
    let crit = seq!["かいしんの いちげき！！"@];
    let hit1 = pre.messages.monster_name@ + "に "@ + spec_dec(dmg) + "ポイントの"@;
    let hit2 = "ダメージを あたえた！"@;
    let hp0 = pre.monster.hp as int;
    let lowered = if hp0 - dmg < 0 {
        0
    } else if hp0 - dmg > pre.monster.stats.hp as int {
        pre.monster.stats.hp as int
    } else {
        hp0 - dmg
    };
    let ls = post.messages.lines();
    &&& 0 <= dmg <= 255
    &&& (dmg == 0 ==> post.monster.hp == pre.monster.hp)
    &&& (dmg == 0 ==> ls =~~= lines0.push(announce).push("ミス"@) || ls =~~= lines0.push(announce)
        + crit + seq!["ミス"@])
    &&& (dmg > 0 ==> post.monster.hp as int == lowered)
    &&& (dmg > 0 ==> ls =~~= lines0.push(announce) + seq![hit1, hit2] || ls =~~= lines0.push(
        announce,
    ) + crit + seq![hit1, hit2])
}

/// What casting one unsealed battle spell does, for drawn magnitude `h`:
/// the incantation lines always land; a heal raises the caster's hit
/// points by `h` within its range, capped at the derived maximum; an
/// attack spell either meets the resist line or lowers the monster's hit
/// points by `h` within its range; sleep and seal either meet the resist
/// line or set the monster's flag.
pub open spec fn spec_cast_outcome<I: PlayerInput, O: MessageOutput>(
    pre: Battle<I, O>,
    post: Battle<I, O>,
    info: SpellInfo,
    h: int,
) -> bool {
    let base = pre.messages.lines().push(
        pre.messages.player_name@ + "は "@ + crate::spell::spec_spell_name(info.spell) + "の"@,
    ).push("じゅもんを となえた！"@);
    let resist = base.push("しかし じゅもんは きかなかった！\n"@);
    let ls = post.messages.lines();
    let maxv = crate::player::spec_player_status(pre.player).max_hp as int;
    let healed = if pre.player.hp as int + h > maxv {
        maxv
    } else {
        pre.player.hp as int + h
    };
    let mhp0 = pre.monster.hp as int;
    let struck = if mhp0 - h < 0 {
        0
    } else if mhp0 - h > pre.monster.stats.hp as int {
        pre.monster.stats.hp as int
    } else {
        mhp0 - h
    };
    let hit = base.push(
        pre.messages.monster_name@ + "に "@ + spec_dec(h) + "ポイントの"@,
    ).push("ダメージを あたえた！"@);
    &&& (info.spell == Spell::Hoimi ==> 10 <= h <= 17 && post.player.hp as int == healed
        && post.monster == pre.monster && post.monster_state == pre.monster_state && ls =~~= base)
    &&& (info.spell == Spell::Behoimi ==> 85 <= h <= 100 && post.player.hp as int == healed
        && post.monster == pre.monster && post.monster_state == pre.monster_state && ls =~~= base)
    &&& (info.spell == Spell::Gira || info.spell == Spell::Begirama ==> post.player.hp
        == pre.player.hp && post.monster_state == pre.monster_state && ((post.monster
        == pre.monster && ls =~~= resist) || ((info.spell == Spell::Gira ==> 5 <= h <= 12) && (
    info.spell == Spell::Begirama ==> 58 <= h <= 65) && post.monster.hp as int == struck && ls
        =~~= hit)))
    &&& (info.spell == Spell::Rarirho ==> post.player.hp == pre.player.hp && post.monster
        == pre.monster && ((post.monster_state == pre.monster_state && ls =~~= resist) || (
    post.monster_state == (BattleState { sleep: true, ..pre.monster_state }) && ls =~~= base.push(
        pre.messages.monster_name@ + "を ねむらせた!"@,
    ))))
    &&& (info.spell == Spell::Mahoton ==> post.player.hp == pre.player.hp && post.monster
        == pre.monster && ((post.monster_state == pre.monster_state && ls =~~= resist) || (
    post.monster_state == (BattleState { seal: true, ..pre.monster_state }) && ls =~~= base.push(
        pre.messages.monster_name@ + "の じゅもんを"@,
    ).push("ふうじこめた！"@))))
    &&& (!(info.spell == Spell::Hoimi || info.spell == Spell::Behoimi || info.spell == Spell::Gira
        || info.spell == Spell::Begirama || info.spell == Spell::Rarirho || info.spell
        == Spell::Mahoton) ==> post.player.hp == pre.player.hp && post.monster == pre.monster
        && post.monster_state == pre.monster_state && ls.len() == 0)
}

/// What using one item does: herbs heal within their range and are
/// spent; the scale, ring and the two curses set their flags once, with
/// the first-time and the already-done lines kept apart; the flute puts
/// exactly the one flute-bound monster to sleep; the lyre and everything
/// without a battle effect change nothing.
pub open spec fn spec_item_outcome<I: PlayerInput, O: MessageOutput>(
    pre: Battle<I, O>,
    post: Battle<I, O>,
    item: UnifiedItem,
) -> bool {
    let ls = post.messages.lines();
    let lines0 = pre.messages.lines();
    let pn = pre.messages.player_name@;
    let mn = pre.messages.monster_name@;
    &&& (item.kind == ItemKind::Herb ==> post.player.herbs == pre.player.herbs - 1 && ls
        =~~= lines0.push(pn + "は やくそうを つかった！"@) && post.player.hp >= 1)
    &&& (item.kind == ItemKind::Key ==> post.player == pre.player && ls.len() == 0)
    &&& (item.kind == ItemKind::Equipment && item.id == 4 ==> ({
        &&& pre.player.flags.has_dragon_scale ==> post.player == pre.player && ls =~~= lines0
            + seq!["りゅうのうろこは すでに"@, "みにつけています。"@]
        &&& !pre.player.flags.has_dragon_scale ==> post.player == (Player {
            flags: (Flags { has_dragon_scale: true, ..pre.player.flags }),
            ..pre.player
        }) && ls =~~= lines0 + seq![pn + "は りゅうのうろこを"@, "みにつけた。"@]
    }))
    &&& (item.kind == ItemKind::Equipment && item.id == 5 ==> post.player == pre.player && ({
        &&& pre.monster.behavior.index == 32 ==> post.monster_state == (BattleState {
            sleep: true,
            ..pre.monster_state
        }) && ls =~~= lines0 + seq![
            pn + "は ふえをふいた。"@,
            mn + "は しずかに めをとじる⋯"@,
            "ねむってしまった！"@,
        ]
        &&& pre.monster.behavior.index != 32 ==> post.monster_state == pre.monster_state && ls
            =~~= lines0 + seq![pn + "は ふえをふいた。"@, "しかし なにも おきなかった。"@]
    }))
    &&& (item.kind == ItemKind::Equipment && item.id == 6 ==> ({
        &&& pre.player.flags.has_warrior_ring ==> post.player == pre.player && ls =~~= lines0
            + seq![pn + "は せんしのゆびわを"@, "はめなおした。"@]
        &&& !pre.player.flags.has_warrior_ring ==> post.player == (Player {
            flags: (Flags { has_warrior_ring: true, ..pre.player.flags }),
            ..pre.player
        }) && ls =~~= lines0 + seq![pn + "は せんしのゆびわを"@, "はめた。"@]
    }))
    &&& (item.kind == ItemKind::Equipment && item.id == 9 ==> ({
        &&& pre.player.is_curse_belt ==> post.player == pre.player && ls =~~= lines0 + seq![
            "のろいのベルトが あなたの"@,
            "からだを しめつけている。"@,
        ]
        &&& !pre.player.is_curse_belt ==> post.player == (Player {
            flags: (Flags { has_cursed_necklace: true, ..pre.player.flags }),
            is_curse_belt: true,
            ..pre.player
        }) && ls =~~= lines0 + seq![
            pn + "は のろいのベルトを"@,
            "みにつけた。"@,
            "のろいのベルトが あなたの"@,
            "からだを しめつける。"@,
            "あなたは のろわれてしまった。"@,
        ]
    }))
    &&& (item.kind == ItemKind::Equipment && item.id == 10 ==> post.player == pre.player && ls
        =~~= lines0 + seq![pn + "は たてごとを かなでた。"@, mn + "は うれしそうだ!"@])
    &&& (item.kind == ItemKind::Equipment && item.id == 11 ==> ({
        &&& pre.player.is_curse_necklace ==> post.player == pre.player && ls =~~= lines0 + seq![
            "しのくびかざりが あなたの"@,
            "からだを しめつけている。"@,
        ]
        &&& !pre.player.is_curse_necklace ==> post.player == (Player {
            flags: (Flags { has_cursed_necklace: true, ..pre.player.flags }),
            is_curse_necklace: true,
            ..pre.player
        }) && ls =~~= lines0 + seq![
            pn + "は しのくびかざりを"@,
            "みにつけた。"@,
            "しのくびかざりが あなたの"@,
            "からだを しめつける。"@,
            "あなたは のろわれてしまった。"@,
        ]
    }))
    &&& (item.kind == ItemKind::Equipment && item.id != 4 && item.id != 5 && item.id != 6
        && item.id != 9 && item.id != 10 && item.id != 11 ==> post.player == pre.player
        && ls.len() == 0)
    &&& (item.kind != ItemKind::Herb ==> post.player.herbs == pre.player.herbs)
    &&& (item.id != 5 || item.kind != ItemKind::Equipment ==> post.monster_state
        == pre.monster_state)
}

/// The spell rows a player with the given experience has unlocked.
pub open spec fn spec_unlocked(exp: int) -> Seq<SpellInfo> {
    spec_spell_info_list().filter(
        |info: SpellInfo| info.learn_level as int <= crate::status_utils::spec_level_by_exp(exp),
    )
}

/// The four reward lines a felled monster leaves: its name, a blank, the
/// experience line and the gold line.
pub open spec fn spec_reward_lines(mn: Seq<char>, exp: int, g: int) -> Seq<Seq<char>> {
    seq![
        mn + " をたおした！"@,
        ""@,
        "けいけんち "@ + spec_dec(exp) + "ポイントかくとく"@,
        spec_dec(g) + "ゴールドを てにいれた！"@,
    ]
}

/// Exactly one of the four terminal outcomes holds: the player escaped,
/// the monster escaped, the player fell, or the monster fell.
pub open spec fn spec_exactly_one_outcome<I: PlayerInput, O: MessageOutput>(
    b: Battle<I, O>,
) -> bool {
    let p_esc = b.player_state.escaped;
    let m_esc = b.monster_state.escaped;
    let p_dead = b.player.hp == 0;
    let m_dead = b.monster.hp == 0;
    (p_esc && !m_esc && !p_dead && !m_dead) || (!p_esc && m_esc && !p_dead && !m_dead) || (!p_esc
        && !m_esc && p_dead && !m_dead) || (!p_esc && !m_esc && !p_dead && m_dead)
}

/// A battle is cleanly set up when nobody has escaped yet and at least
/// one side stands; every encounter the library builds starts that way.
pub open spec fn spec_clean_start<I: PlayerInput, O: MessageOutput>(b: Battle<I, O>) -> bool {
    !b.player_state.escaped && !b.monster_state.escaped && !(b.player.hp == 0 && b.monster.hp == 0)
}

/// The loop guard of the encounter: both sides standing and present.
pub open spec fn spec_battle_continue<I: PlayerInput, O: MessageOutput>(
    b: Battle<I, O>,
) -> bool {
    b.player.hp > 0 && !b.player_state.escaped && b.monster.hp > 0 && !b.monster_state.escaped
}

impl<I: PlayerInput, O: MessageOutput> Battle<I, O> {
    /// Sets an encounter up: both conditions clear, the line buffer
    /// keyed to the two names.
    pub fn new(player: Player, monster: Monster, input: I, output: O) -> (r: Battle<I, O>)
        ensures
            r.player == player,
            r.monster == monster,
            !r.player_state.sleep && !r.player_state.seal && !r.player_state.escaped,
            !r.monster_state.sleep && !r.monster_state.seal && !r.monster_state.escaped,
            r.messages.player_name@ == player.name@,
            r.messages.monster_name@ == monster.stats.name@,
    {
        let player_name = player.name.clone();
        let monster_name = String::from_str(monster.stats.name);
        Battle {
            player,
            monster,
            player_state: BattleState::new(),
            monster_state: BattleState::new(),
            messages: BattleMessages::new(player_name, monster_name, output),
            input,
        }
    }

    /// Whether the encounter goes on: the player stands and has not
    /// escaped, and so for the monster.
    pub fn is_battle_continue(&self) -> (r: bool)
        ensures
            r == spec_battle_continue(*self),
    {
        (self.player.is_alive() && !self.player_state.escaped) && (self.monster.is_alive()
            && !self.monster_state.escaped)
    }

    /// Rolls whether the player acts first: the escape inequality at two
    /// fresh draws, the opposing one bounded by the opening band of 63.
    pub fn player_goes_first(&self) -> (r: bool)
        ensures
            exists|d1: int, d2: int|
                #![trigger spec_escape_success(crate::player::spec_player_status(self.player).agility as int, self.monster.stats.defense as int, d1, d2)]
                0 <= d1 <= 255 && 0 <= d2 <= 63 && r == spec_escape_success(
                    crate::player::spec_player_status(self.player).agility as int,
                    self.monster.stats.defense as int,
                    d1,
                    d2,
                ),
    {
        let player_agility = self.player.agility() as u16;
        let monster_defense = self.monster.stats.defense as u16;
        check_escape_success(player_agility, monster_defense, 63)
    }

    /// Rolls whether an escape attempt gets away: the escape inequality
    /// at two fresh draws, the opposing one bounded by the monster's own
    /// escape band.
    pub fn is_escape(&self) -> (r: bool)
        ensures
            exists|d1: int, d2: int|
                #![trigger spec_escape_success(crate::player::spec_player_status(self.player).agility as int, self.monster.stats.defense as int, d1, d2)]
                0 <= d1 <= 255 && 0 <= d2 <= spec_escape_rand_max(self.monster.behavior.index as int)
                    && r == spec_escape_success(
                    crate::player::spec_player_status(self.player).agility as int,
                    self.monster.stats.defense as int,
                    d1,
                    d2,
                ),
    {
        let player_agility = self.player.agility() as u16;
        let monster_defense = self.monster.stats.defense as u16;
        let index = self.monster.behavior.index;
        let rand_max = get_escape_rand_max_by_monster_index(index);
        check_escape_success(player_agility, monster_defense, rand_max)
    }

    /// Appends the status block: both sides' current points.
    pub fn update_status(&mut self)
        ensures
            final(self).player == old(self).player,
            final(self).monster == old(self).monster,
            final(self).player_state == old(self).player_state,
            final(self).monster_state == old(self).monster_state,
    {
        let hp = self.player.hp;
        let mp = self.player.mp;
        let mhp = self.monster.hp;
        self.messages.add_status(hp, mp, mhp);
    }

    /// Appends the player's incantation lines.
    pub fn add_use_spell(&mut self, spell: &Spell)
        ensures
            final(self).player == old(self).player,
            final(self).monster == old(self).monster,
            final(self).player_state == old(self).player_state,
            final(self).monster_state == old(self).monster_state,
    {
        self.messages.add_use_spell(spell.as_str());
    }

    /// Appends the damage-dealt lines.
    pub fn add_monster_damage(&mut self, damage: u8)
        ensures
            final(self).player == old(self).player,
            final(self).monster == old(self).monster,
            final(self).player_state == old(self).player_state,
            final(self).monster_state == old(self).monster_state,
    {
        self.messages.add_monster_damage(damage);
    }

    /// Appends the monster's incantation lines.
    pub fn add_monster_spell(&mut self, spell: &Spell)
        ensures
            final(self).player == old(self).player,
            final(self).monster == old(self).monster,
            final(self).player_state == old(self).player_state,
            final(self).monster_state == old(self).monster_state,
    {
        self.messages.add_monster_spell(spell.as_str());
    }

    /// Appends the seal-blocked lines.
    pub fn add_monster_spell_sealed(&mut self)
        ensures
            final(self).player == old(self).player,
            final(self).monster == old(self).monster,
            final(self).player_state == old(self).player_state,
            final(self).monster_state == old(self).monster_state,
    {
        self.messages.add_spell_sealed();
    }

    /// Picks the monster's move for this turn: a possible flight when the
    /// player looks too strong, else the support logic.
    pub fn decide_enemy_action(&self) -> (r: EnemyAction)
        ensures
            r == EnemyAction::Escape ==> self.player_spec_strength() / 2
                >= self.monster.stats.attack as int,
            r matches EnemyAction::Special(a) ==> self.monster.behavior.actions@.contains(a) && (
            spec_is_support_action(a) || spec_is_attack_action(a)),
    {
        let monster_attack = self.monster.stats.attack;
        let player_strength = self.player.strength();
        if player_strength / 2 >= monster_attack {
            if random_success_by_percent(2500) {
                return EnemyAction::Escape;
            }
        }
        self.decide_monster_support_magic_action()
    }

    /// The player's strength as the decision logic sees it.
    pub open spec fn player_spec_strength(self) -> int {
        crate::player::spec_player_status(self.player).strength as int
    }

    /// Weighs the support moves first: a heal only when hurt enough, a
    /// sleep or seal only when the player is not already under it; any
    /// other winner falls through to the attack logic.
    pub fn decide_monster_support_magic_action(&self) -> (r: EnemyAction)
        ensures
            r != EnemyAction::Escape,
            r matches EnemyAction::Special(a) ==> self.monster.behavior.actions@.contains(a) && (
            spec_is_support_action(a) || spec_is_attack_action(a)),
            r matches EnemyAction::Special(a) && (a.action == ActionType::Spell(Spell::Hoimi)
                || a.action == ActionType::Spell(Spell::Behoimi)) ==> 4 * self.monster.hp as int
                <= self.monster.stats.hp as int,
            r matches EnemyAction::Special(a) && a.action == ActionType::Spell(Spell::Rarirho)
                && spec_is_support_action(a) ==> !self.player_state.sleep,
            r matches EnemyAction::Special(a) && a.action == ActionType::Spell(Spell::Mahoton)
                ==> !self.player_state.seal,
    {
        if self.monster.has_support_magic() {
            let candidates = self.monster.support_spells_actions();
            proof {
                reveal(Seq::filter);
            }
            match choose_action(&candidates) {
                Some(monster_action) => {
                    proof {
                        let pred = |a: MonsterAction| spec_is_support_action(a);
                        let fseq = self.monster.behavior.actions@.filter(pred);
                        let i = choose|i: int| 0 <= i < fseq.len() && fseq[i] == monster_action;
                        self.monster.behavior.actions@.lemma_filter_pred(pred, i);
                        self.monster.behavior.actions@.lemma_filter_contains_rev(
                            pred,
                            monster_action,
                        );
                    }
                    let is_heal = match monster_action.action {
                        ActionType::Spell(sp) => sp == Spell::Hoimi || sp == Spell::Behoimi,
                        ActionType::Special(_) => false,
                    };
                    let is_sleep = match monster_action.action {
                        ActionType::Spell(sp) => sp == Spell::Rarirho,
                        ActionType::Special(_) => false,
                    };
                    let is_seal = match monster_action.action {
                        ActionType::Spell(sp) => sp == Spell::Mahoton,
                        ActionType::Special(_) => false,
                    };
                    if is_heal && self.monster.is_low_hp() {
                        return EnemyAction::Special(monster_action);
                    }
                    if is_sleep && !self.player_state.sleep {
                        return EnemyAction::Special(monster_action);
                    }
                    if is_seal && !self.player_state.seal {
                        return EnemyAction::Special(monster_action);
                    }
                },
                None => {},
            }
        }
        self.decide_monster_attack_magic_action()
    }

    /// Weighs the attack moves: the winner is used when it is a
    /// recognized damaging move; otherwise the plain physical attack.
    pub fn decide_monster_attack_magic_action(&self) -> (r: EnemyAction)
        ensures
            r != EnemyAction::Escape,
            r matches EnemyAction::Special(a) ==> self.monster.behavior.actions@.contains(a)
                && spec_is_attack_action(a),
    {
        if self.monster.has_attack_skill() {
            let candidates = self.monster.attack_spells_actions();
            proof {
                reveal(Seq::filter);
            }
            match choose_action(&candidates) {
                Some(monster_action) => {
                    proof {
                        let pred = |a: MonsterAction| spec_is_attack_action(a);
                        let fseq = self.monster.behavior.actions@.filter(pred);
                        let i = choose|i: int| 0 <= i < fseq.len() && fseq[i] == monster_action;
                        self.monster.behavior.actions@.lemma_filter_pred(pred, i);
                        self.monster.behavior.actions@.lemma_filter_contains_rev(
                            pred,
                            monster_action,
                        );
                    }
                    let recognized = match monster_action.action {
                        ActionType::Spell(sp) => sp == Spell::Gira || sp == Spell::Begirama,
                        ActionType::Special(name) => str_eq(name, "ほのお(弱)") || str_eq(
                            name,
                            "ほのお(強)",
                        ),
                    };
                    if recognized {
                        return EnemyAction::Special(monster_action);
                    }
                },
                None => {},
            }
        }
        EnemyAction::Attack
    }

    /// One monster turn: sleep may forfeit it; otherwise the decided move
    /// resolves against the player.
    pub fn monster_turn(&mut self)
        ensures
            final(self).monster.stats == old(self).monster.stats,
            final(self).monster.behavior == old(self).monster.behavior,
            final(self).player == (Player { hp: final(self).player.hp, ..old(self).player }),
            final(self).player.hp <= old(self).player.hp,
            final(self).player_state.escaped == old(self).player_state.escaped,
            final(self).monster_state.seal == old(self).monster_state.seal,
            final(self).monster_state.sleep ==> old(self).monster_state.sleep,
            final(self).monster.hp == old(self).monster.hp || final(self).player.hp == old(self)
                .player.hp,
            final(self).monster_state.escaped ==> old(self).monster_state.escaped || (final(self)
                .monster.hp == old(self).monster.hp && final(self).player.hp == old(self).player
                .hp),
            old(self).monster_state.sleep && final(self).monster_state.sleep ==> final(self)
                .player == old(self).player && final(self).monster == old(self).monster && final(self)
                .player_state == old(self).player_state && final(self).monster_state == old(self)
                .monster_state && final(self).messages.lines() == old(self).messages.lines().push(
                old(self).messages.monster_name@ + "は ねむっている⋯⋯⋯"@,
            ),
    {
        if self.monster_state.sleep {
            let is_wakeup = random_success_by_percent(3333);
            if is_wakeup {
                self.messages.monster_wake_up();
                self.monster_state = BattleState { sleep: false, ..self.monster_state };
            } else {
                self.messages.monster_still_asleep();
                return;
            }
        }
        let action = self.decide_enemy_action();
        match action {
            EnemyAction::Attack => self.handle_enemy_normal_attack(),
            EnemyAction::Special(monster_action) => {
                match monster_action.action {
                    ActionType::Spell(spell) => {
                        if spell == Spell::Hoimi || spell == Spell::Behoimi {
                            self.handle_enemy_heal_spell(spell, &monster_action);
                        } else if spell == Spell::Gira || spell == Spell::Begirama {
                            self.handle_enemy_attack_spell(spell, &monster_action);
                        } else if spell == Spell::Rarirho {
                            self.handle_enemy_sleep_spell(spell);
                        } else if spell == Spell::Mahoton {
                            self.handle_enemy_seal_spell(spell);
                        }
                    },
                    ActionType::Special(name) => {
                        self.handle_enemy_special_skill(name, &monster_action);
                    },
                }
            },
            EnemyAction::Escape => {
                self.messages.monster_escaped();
                self.monster_state = BattleState { escaped: true, ..self.monster_state };
            },
        }
    }

    /// The plain physical strike against the player.
    fn handle_enemy_normal_attack(&mut self)
        ensures
            final(self).monster == old(self).monster,
            final(self).player == (Player { hp: final(self).player.hp, ..old(self).player }),
            final(self).player.hp <= old(self).player.hp,
            final(self).player_state == old(self).player_state,
            final(self).monster_state == old(self).monster_state,
    {
        let damage = self.monster.normal_damage(&self.player);
        if damage > 0 {
            self.messages.add_monster_attack();
            self.messages.add_player_damage(damage);
            self.player.adjust_hp(-(damage as i16));
        } else {
            self.messages.add_monster_attack();
            self.messages.add_miss();
        }
    }

    /// The monster heals itself; its own seal suppresses the effect
    /// after the incantation.
    fn handle_enemy_heal_spell(&mut self, spell: Spell, monster_action: &MonsterAction)
        ensures
            final(self).monster.stats == old(self).monster.stats,
            final(self).monster.behavior == old(self).monster.behavior,
            final(self).player == old(self).player,
            final(self).player_state == old(self).player_state,
            final(self).monster_state == old(self).monster_state,
            old(self).monster_state.seal ==> final(self).monster.hp == old(self).monster.hp,
    {
        let heal = monster_action_effect(&monster_action.action);
        self.add_monster_spell(&spell);
        if self.monster_state.seal {
            self.add_monster_spell_sealed();
            return;
        }
        self.messages.monster_heal();
        self.monster.adjust_hp(heal as i16);
    }

    /// The monster's attack spell; its own seal suppresses the effect
    /// after the incantation.
    fn handle_enemy_attack_spell(&mut self, spell: Spell, monster_action: &MonsterAction)
        ensures
            final(self).monster == old(self).monster,
            final(self).player == (Player { hp: final(self).player.hp, ..old(self).player }),
            final(self).player.hp <= old(self).player.hp,
            final(self).player_state == old(self).player_state,
            final(self).monster_state == old(self).monster_state,
            old(self).monster_state.seal ==> final(self).player.hp == old(self).player.hp,
    {
        let damage = monster_action_effect(&monster_action.action);
        self.add_monster_spell(&spell);
        if self.monster_state.seal {
            self.add_monster_spell_sealed();
            return;
        }
        self.messages.add_player_damage(damage);
        self.player.adjust_hp(-(damage as i16));
    }

    /// The monster's sleep spell; its own seal suppresses the effect.
    fn handle_enemy_sleep_spell(&mut self, spell: Spell)
        ensures
            final(self).monster == old(self).monster,
            final(self).player == old(self).player,
            final(self).monster_state == old(self).monster_state,
            old(self).monster_state.seal ==> final(self).player_state == old(self).player_state,
            !old(self).monster_state.seal ==> final(self).player_state == (BattleState {
                sleep: true,
                ..old(self).player_state
            }),
    {
        self.add_monster_spell(&spell);
        if self.monster_state.seal {
            self.add_monster_spell_sealed();
            return;
        }
        self.messages.fall_asleep();
        self.player_state = BattleState { sleep: true, ..self.player_state };
    }

    /// The monster's seal spell: a coin-odds roll that the strongest
    /// armor always resists; the monster's own seal suppresses it.
    fn handle_enemy_seal_spell(&mut self, spell: Spell)
        ensures
            final(self).monster == old(self).monster,
            final(self).player == old(self).player,
            final(self).monster_state == old(self).monster_state,
            final(self).player_state.sleep == old(self).player_state.sleep,
            final(self).player_state.escaped == old(self).player_state.escaped,
            old(self).monster_state.seal ==> final(self).player_state == old(self).player_state,
            final(self).player_state.seal ==> old(self).player_state.seal || old(self).player.armor != 7,
    {
        self.add_monster_spell(&spell);
        if self.monster_state.seal {
            self.add_monster_spell_sealed();
            return;
        }
        let success = random_success_by_percent(5000);
        if success && !self.player.is_max_armor() {
            self.messages.spells_sealed();
            self.player_state = BattleState { seal: true, ..self.player_state };
        } else {
            self.messages.spell_resisted();
        }
    }

    /// A breath or named special: flame damage passes the fire
    /// correction, anything else the spell correction; seal does not
    /// block it.
    fn handle_enemy_special_skill(&mut self, name: &str, monster_action: &MonsterAction)
        ensures
            final(self).monster == old(self).monster,
            final(self).player == (Player { hp: final(self).player.hp, ..old(self).player }),
            final(self).player.hp <= old(self).player.hp,
            final(self).player_state == old(self).player_state,
            final(self).monster_state == old(self).monster_state,
    {
        let mut damage = monster_action_effect(&monster_action.action);
        if str_eq(name, "ほのお(弱)") || str_eq(name, "ほのお(強)") {
            damage = self.player.reduce_fire_damage(damage);
        } else {
            damage = self.player.reduce_spell_damage(damage);
        }
        self.messages.enemy_special_skill(name, damage);
        self.player.adjust_hp(-(damage as i16));
    }

    /// Appends and flushes the four-way command menu.
    pub fn display_command(&mut self)
        ensures
            final(self).player == old(self).player,
            final(self).monster == old(self).monster,
            final(self).player_state == old(self).player_state,
            final(self).monster_state == old(self).monster_state,
    {
        self.messages.display_command();
        self.messages.display();
    }

    /// One player turn: sleep may forfeit it; otherwise the command menu
    /// runs until an action consumes the turn.
    pub fn player_turn(&mut self)
        ensures
            final(self).player.name == old(self).player.name,
            final(self).player.exp == old(self).player.exp,
            final(self).player.gold == old(self).player.gold,
            final(self).player.keys == old(self).player.keys,
            final(self).player.items == old(self).player.items,
            final(self).monster.stats == old(self).monster.stats,
            final(self).monster.behavior == old(self).monster.behavior,
            final(self).monster.hp <= old(self).monster.hp,
            final(self).monster_state.escaped == old(self).monster_state.escaped,
            final(self).player_state.sleep ==> old(self).player_state.sleep,
            final(self).player_state.seal == old(self).player_state.seal,
            old(self).player.hp > 0 ==> final(self).player.hp > 0,
            final(self).player_state.escaped ==> old(self).player_state.escaped || final(self)
                .monster.hp == old(self).monster.hp,
            old(self).player_state.sleep && final(self).player_state.sleep ==> final(self).player
                == old(self).player && final(self).monster == old(self).monster && final(self)
                .player_state == old(self).player_state && final(self).monster_state == old(self)
                .monster_state && final(self).messages.lines() == old(self).messages.lines().push(
                old(self).messages.player_name@ + "は ねむっている⋯⋯⋯"@,
            ),
    {
        if self.player_state.sleep {
            let is_wakeup = random_success_by_percent(3333);
            if is_wakeup {
                self.messages.wake_up();
                self.player_state = BattleState { sleep: false, ..self.player_state };
            } else {
                self.messages.still_asleep();
                self.messages.display();
                return;
            }
        }
        self.display_command();
        self.commands();
    }

    /// The player's strike roll: an evasion check gives zero, then a
    /// one-in-32 critical chance — suppressed against the two final
    /// opponents — gives the critical formula, else the normal formula,
    /// each at a fresh draw. A critical also appends its line.
    pub fn player_battle_attack_damage(&mut self) -> (r: u8)
        ensures
            final(self).player == old(self).player,
            final(self).monster == old(self).monster,
            final(self).player_state == old(self).player_state,
            final(self).monster_state == old(self).monster_state,
            final(self).messages.player_name == old(self).messages.player_name,
            final(self).messages.monster_name == old(self).messages.monster_name,
            final(self).messages.lines() == old(self).messages.lines() || final(self).messages
                .lines() == old(self).messages.lines() + seq!["かいしんの いちげき！！"@],
            final(self).messages.lines() == old(self).messages.lines() ==> r == 0 || exists|d: int|
                0 <= d <= 255 && r as int == crate::player::spec_player_normal_damage(
                    crate::player::spec_attack_power(old(self).player),
                    old(self).monster.stats.defense as int,
                    d,
                ),
            final(self).messages.lines() != old(self).messages.lines() ==> old(self).monster
                .behavior.index != 38 && old(self).monster.behavior.index != 39 && exists|d: int|
                0 <= d <= 255 && r as int == crate::player::spec_critical_damage(
                    crate::player::spec_attack_power(old(self).player),
                    d,
                ),
    {
        let ghost pre = self.messages.lines();
        let evade_rate = self.monster.behavior.evade_rate_hundredths;
        let is_evade = random_success_by_percent(evade_rate);
        if is_evade {
            proof {
                assert(self.messages.lines() =~~= pre + Seq::empty());
                assert(!false ==> true);
            }
            return 0;
        }
        let is_critical = random_success_by_ratio(32);
        if is_critical && !self.monster.is_final_boss() {
            self.messages.critical_damage();
            let r = self.player.critical_damage_with(crate::random_utils::random_value(255));
            proof {
                assert(self.messages.lines() =~~= pre + seq!["かいしんの いちげき！！"@]);
            }
            r
        } else {
            let draw = crate::random_utils::random_value(255);
            let r = self.player.normal_damage_with(self.monster.stats.defense, draw);
            proof {
                assert(self.messages.lines() =~~= pre + Seq::empty());
                assert(0 <= draw as int <= 255 && r as int
                    == crate::player::spec_player_normal_damage(
                    crate::player::spec_attack_power(old(self).player),
                    old(self).monster.stats.defense as int,
                    draw as int,
                ));
            }
            r
        }
    }

    /// The attack command: announce the strike, roll it, then either
    /// report the miss with the monster untouched or report the damage
    /// and lower the monster's hit points by it.
    pub fn player_action_attack(&mut self)
        ensures
            final(self).monster.stats == old(self).monster.stats,
            final(self).monster.behavior == old(self).monster.behavior,
            final(self).monster.hp <= old(self).monster.hp,
            final(self).player == old(self).player,
            final(self).player_state == old(self).player_state,
            final(self).monster_state == old(self).monster_state,
            final(self).messages.player_name == old(self).messages.player_name,
            final(self).messages.monster_name == old(self).messages.monster_name,
            exists|dmg: int|
                #![trigger spec_attack_outcome(*old(self), *final(self), dmg)]
                spec_attack_outcome(*old(self), *final(self), dmg),
    {
        let ghost pre = self.messages.lines();
        let name = self.player.name.clone();
        self.messages.add_player_attack(name.as_str());
        let ghost after_announce = self.messages.lines();
        let damage = self.player_battle_attack_damage();
        let ghost mid = self.messages.lines().skip(after_announce.len() as int);
        proof {
            assert(self.messages.lines() =~~= after_announce + mid);
            if self.messages.lines() == after_announce {
                assert(mid =~~= Seq::<Seq<char>>::empty());
            } else {
                assert(self.messages.lines() == after_announce + seq![
                    "かいしんの いちげき！！"@,
                ]);
                assert(mid =~~= seq!["かいしんの いちげき！！"@]);
            }
        }
        if damage == 0 {
            self.messages.add_miss();
            proof {
                if mid.len() == 0 {
                    assert(self.messages.lines() =~~= pre.push(
                        old(self).player.name@ + " のこうげき！"@,
                    ).push("ミス"@));
                } else {
                    assert(self.messages.lines() =~~= pre.push(
                        old(self).player.name@ + " のこうげき！"@,
                    ) + seq!["かいしんの いちげき！！"@] + seq!["ミス"@]);
                }
                assert(spec_attack_outcome(*old(self), *self, 0int));
            }
        } else {
            self.messages.add_monster_damage(damage);
            self.monster.adjust_hp(-(damage as i16));
            proof {
                let ghost hit1 = old(self).messages.monster_name@ + "に "@ + spec_dec(
                    damage as int,
                ) + "ポイントの"@;
                if mid.len() == 0 {
                    assert(self.messages.lines() =~~= pre.push(
                        old(self).player.name@ + " のこうげき！"@,
                    ) + seq![hit1, "ダメージを あたえた！"@]);
                } else {
                    assert(self.messages.lines() =~~= pre.push(
                        old(self).player.name@ + " のこうげき！"@,
                    ) + seq!["かいしんの いちげき！！"@] + seq![hit1, "ダメージを あたえた！"@]);
                }
                assert(spec_attack_outcome(*old(self), *self, damage as int));
            }
        }
    }

    /// Resolves one chosen, affordable spell. The cost is always paid;
    /// a seal on the player swallows the effect after the incantation.
    /// Returns whether the turn was consumed.
    pub fn cast_selected_spell(&mut self, selected_spell: SpellInfo) -> (done: bool)
        requires
            old(self).player.mp >= selected_spell.mp_cost,
        ensures
            final(self).player.mp == old(self).player.mp - selected_spell.mp_cost,
            final(self).player.name == old(self).player.name,
            final(self).player.exp == old(self).player.exp,
            old(self).player_state.seal ==> done,
            old(self).player_state.seal ==> final(self).player.hp == old(self).player.hp,
            old(self).player_state.seal ==> final(self).monster == old(self).monster,
            old(self).player_state.seal ==> final(self).monster_state == old(self).monster_state,
            old(self).player_state.seal ==> final(self).player_state == old(self).player_state,
            final(self).monster.stats == old(self).monster.stats,
            final(self).monster.behavior == old(self).monster.behavior,
            final(self).monster.hp <= old(self).monster.hp,
            final(self).player.gold == old(self).player.gold,
            final(self).player.herbs == old(self).player.herbs,
            final(self).player.keys == old(self).player.keys,
            final(self).player.items == old(self).player.items,
            final(self).player.flags == old(self).player.flags,
            final(self).player_state == old(self).player_state,
            final(self).monster_state.escaped == old(self).monster_state.escaped,
            final(self).messages.player_name == old(self).messages.player_name,
            final(self).messages.monster_name == old(self).messages.monster_name,
            old(self).player.hp > 0 ==> final(self).player.hp > 0,
            done <==> (old(self).player_state.seal || selected_spell.spell == Spell::Hoimi
                || selected_spell.spell == Spell::Behoimi || selected_spell.spell == Spell::Gira
                || selected_spell.spell == Spell::Begirama || selected_spell.spell
                == Spell::Rarirho || selected_spell.spell == Spell::Mahoton),
            !done ==> final(self).monster == old(self).monster,
            !done ==> final(self).monster_state == old(self).monster_state,
            !done ==> final(self).player.hp == old(self).player.hp,
            !old(self).player_state.seal ==> exists|h: int|
                #![trigger spec_cast_outcome(*old(self), *final(self), selected_spell, h)]
                spec_cast_outcome(*old(self), *final(self), selected_spell, h),
            old(self).player_state.seal ==> final(self).messages.lines() == old(self).messages
                .lines().push(
                old(self).messages.player_name@ + "は "@ + crate::spell::spec_spell_name(
                    selected_spell.spell,
                ) + "の"@,
            ).push("じゅもんを となえた！"@).push("しかし じゅもんは ふうじこまれている！"@),
    {
        self.player.consume_mp(&selected_spell);
        let spell = selected_spell.spell;
        self.messages.add_use_spell(spell.as_str());
        if self.player_state.seal {
            self.messages.spell_sealed();
            self.messages.display();
            return true;
        }
        if spell == Spell::Hoimi || spell == Spell::Behoimi {
            let heal = player_spell_effect(spell);
            proof {
                crate::player::lemma_player_max_hp_floor(self.player);
            }
            self.player.adjust_hp(heal as i16);
            proof {
                assert(spec_cast_outcome(*old(self), *self, selected_spell, heal as int));
            }
            true
        } else if spell == Spell::Gira || spell == Spell::Begirama {
            let resist = self.monster.behavior.resist.gira;
            let spell_invalid = random_success_by_percent((resist as u16) * 100);
            if spell_invalid {
                self.messages.spell_resisted();
                proof {
                    assert(spec_cast_outcome(*old(self), *self, selected_spell, 7int));
                }
            } else {
                let damage = player_spell_effect(spell);
                self.messages.add_monster_damage(damage);
                self.monster.adjust_hp(-(damage as i16));
                proof {
                    assert(spec_cast_outcome(*old(self), *self, selected_spell, damage as int));
                }
            }
            true
        } else if spell == Spell::Rarirho {
            let resist = self.monster.behavior.resist.rariho;
            let spell_invalid = random_success_by_percent((resist as u16) * 100);
            if spell_invalid {
                self.messages.spell_resisted();
            } else {
                self.messages.monster_fall_asleep();
                self.monster_state = BattleState { sleep: true, ..self.monster_state };
            }
            proof {
                assert(spec_cast_outcome(*old(self), *self, selected_spell, 0int));
            }
            true
        } else if spell == Spell::Mahoton {
            let resist = self.monster.behavior.resist.mahoton;
            let spell_invalid = random_success_by_percent((resist as u16) * 100);
            if spell_invalid {
                self.messages.spell_resisted();
            } else {
                self.messages.seal_monster_spell();
                self.monster_state = BattleState { seal: true, ..self.monster_state };
            }
            proof {
                assert(spec_cast_outcome(*old(self), *self, selected_spell, 0int));
            }
            true
        } else {
            self.messages.can_not_use_by_battle();
            self.messages.display();
            self.messages.clear();
            proof {
                assert(spec_cast_outcome(*old(self), *self, selected_spell, 0int));
            }
            false
        }
    }

    /// The spell command: list the unlocked spells, take a choice, check
    /// the cost, and cast. Returns whether the turn was consumed.
    pub fn player_action_spell(&mut self) -> (done: bool)
        ensures
            final(self).player.name == old(self).player.name,
            final(self).player.exp == old(self).player.exp,
            final(self).player.gold == old(self).player.gold,
            final(self).player.herbs == old(self).player.herbs,
            final(self).player.keys == old(self).player.keys,
            final(self).player.items == old(self).player.items,
            final(self).player.flags == old(self).player.flags,
            final(self).monster.stats == old(self).monster.stats,
            final(self).monster.behavior == old(self).monster.behavior,
            final(self).monster.hp <= old(self).monster.hp,
            final(self).player_state == old(self).player_state,
            final(self).monster_state.escaped == old(self).monster_state.escaped,
            final(self).messages.player_name == old(self).messages.player_name,
            final(self).messages.monster_name == old(self).messages.monster_name,
            old(self).player.hp > 0 ==> final(self).player.hp > 0,
            !done ==> final(self).player.hp == old(self).player.hp && final(self).monster == old(self).monster && final(self).monster_state == old(self).monster_state,
            spec_spell_info_list().filter(
                |info: SpellInfo| info.learn_level as int <= crate::status_utils::spec_level_by_exp(
                    old(self).player.exp as int,
                ),
            ).len() == 0 ==> !done && final(self).player == old(self).player,
            done ==> exists|k: int|
                #![trigger spec_unlocked(old(self).player.exp as int)[k]]
                0 <= k < spec_unlocked(old(self).player.exp as int).len() && old(self).player.mp
                    >= spec_unlocked(old(self).player.exp as int)[k].mp_cost && final(self).player
                    .mp == old(self).player.mp - spec_unlocked(old(self).player.exp as int)[
                k].mp_cost,
    {
        if self.player.is_empty_spell_list() {
            self.messages.can_not_use_spell();
            self.messages.display();
            return false;
        }
        let spell_list = self.player.spell_list();
        let spell_len = spell_list.len();
        self.messages.push(String::from_str("--- じゅもん ---"));
        self.messages.push(String::from_str("0: もどる"));
        let mut i: usize = 0;
        while i < spell_list.len()
            invariant
                i <= spell_list@.len(),
                self.player == old(self).player,
                self.monster == old(self).monster,
                self.player_state == old(self).player_state,
                self.monster_state == old(self).monster_state,
                self.messages.player_name == old(self).messages.player_name,
                self.messages.monster_name == old(self).messages.monster_name,
            decreases spell_list@.len() - i,
        {
            let mut line = u16_to_string((i + 1) as u16);
            line.append(": ");
            line.append(spell_list[i].spell.as_str());
            self.messages.push(line);
            i = i + 1;
        }
        self.messages.display();
        self.messages.clear();
        let spell_index = self.input.get_player_input(spell_len);
        if spell_index == 0 {
            return false;
        }
        let selected_spell = self.player.select_spell(spell_index - 1);
        if self.player.mp < selected_spell.mp_cost {
            self.messages.mp_not_enough();
            self.messages.display();
            self.messages.clear();
            return false;
        }
        let done = self.cast_selected_spell(selected_spell);
        proof {
            assert(selected_spell == spec_unlocked(old(self).player.exp as int)[spell_index - 1]);
        }
        done
    }

    /// The item command: list the belongings, take a choice, and use it.
    /// Picking the return entry hands control back without consuming the
    /// turn or touching any state.
    pub fn player_action_item(&mut self) -> (done: bool)
        ensures
            final(self).player.name == old(self).player.name,
            final(self).player.exp == old(self).player.exp,
            final(self).player.gold == old(self).player.gold,
            final(self).player.keys == old(self).player.keys,
            final(self).player.items == old(self).player.items,
            final(self).player.mp == old(self).player.mp,
            final(self).monster == old(self).monster,
            final(self).player_state == old(self).player_state,
            final(self).monster_state.escaped == old(self).monster_state.escaped,
            final(self).monster_state.seal == old(self).monster_state.seal,
            final(self).messages.player_name == old(self).messages.player_name,
            final(self).messages.monster_name == old(self).messages.monster_name,
            old(self).player.hp > 0 ==> final(self).player.hp > 0,
            !done ==> final(self).player == old(self).player,
            !done ==> final(self).monster_state == old(self).monster_state,
            crate::player::spec_unified_items(old(self).player).len() == 0 ==> !done,
    {
        if !self.player.is_unified_item_list() {
            self.messages.no_usable_items();
            self.messages.display();
            self.messages.clear();
            return false;
        }
        self.messages.push(String::from_str("--- どうぐ ---"));
        self.messages.push(String::from_str("0: もどる"));
        let unified_item_list = self.player.unified_item_list();
        let mut i: usize = 0;
        while i < unified_item_list.len()
            invariant
                i <= unified_item_list@.len(),
                self.player == old(self).player,
                self.monster == old(self).monster,
                self.player_state == old(self).player_state,
                self.monster_state == old(self).monster_state,
                self.messages.player_name == old(self).messages.player_name,
                self.messages.monster_name == old(self).messages.monster_name,
            decreases unified_item_list@.len() - i,
        {
            let item = &unified_item_list[i];
            let mut line = u16_to_string((i + 1) as u16);
            line.append(": ");
            line.append(item.name);
            if item.kind == ItemKind::Herb || item.kind == ItemKind::Key {
                line.append(" （");
                line.append(u16_to_string(item.count as u16).as_str());
                line.append("）");
            }
            self.messages.push(line);
            i = i + 1;
        }
        self.messages.display();
        self.messages.clear();
        let item_index = self.input.get_player_input(unified_item_list.len());
        if item_index == 0 {
            return false;
        }
        let chosen = unified_item_list[item_index - 1].clone();
        proof {
            assert(unified_item_list@.contains(unified_item_list@[item_index - 1]));
            if chosen.kind == ItemKind::Herb {
                lemma_menu_herb_has_herbs(old(self).player, chosen);
            }
        }
        self.use_item(chosen)
    }

    /// Applies one chosen item. Herbs heal and are spent; keys and
    /// anything without a battle effect bounce back to the menu; the
    /// equipment pieces apply their one-time effects.
    #[verifier::rlimit(100)]
    #[verifier::spinoff_prover]
    pub fn use_item(&mut self, item: UnifiedItem) -> (done: bool)
        requires
            item.kind == ItemKind::Herb ==> old(self).player.herbs > 0,
        ensures
            final(self).player.name == old(self).player.name,
            final(self).player.exp == old(self).player.exp,
            final(self).player.gold == old(self).player.gold,
            final(self).player.keys == old(self).player.keys,
            final(self).player.items == old(self).player.items,
            final(self).player.mp == old(self).player.mp,
            final(self).monster == old(self).monster,
            final(self).player_state == old(self).player_state,
            final(self).monster_state.escaped == old(self).monster_state.escaped,
            final(self).monster_state.seal == old(self).monster_state.seal,
            final(self).messages.player_name == old(self).messages.player_name,
            final(self).messages.monster_name == old(self).messages.monster_name,
            old(self).player.hp > 0 ==> final(self).player.hp > 0,
            !done ==> final(self).player == old(self).player && final(self).monster_state == old(
                self,
            ).monster_state,
            item.kind == ItemKind::Herb ==> done,
            item.kind == ItemKind::Key ==> !done,
            item.kind == ItemKind::Equipment ==> (done <==> (item.id == 4 || item.id == 5
                || item.id == 6 || item.id == 9 || item.id == 10 || item.id == 11)),
            spec_item_outcome(*old(self), *final(self), item),
    {
        match item.kind {
            ItemKind::Herb => {
                self.messages.used_item_herbs();
                self.player.use_herbs();
                proof {
                    assert(spec_item_outcome(*old(self), *self, item));
                }
                true
            },
            ItemKind::Key => {
                self.messages.can_not_use_by_battle();
                self.messages.display();
                self.messages.clear();
                proof {
                    assert(spec_item_outcome(*old(self), *self, item));
                }
                false
            },
            ItemKind::Equipment => {
                let done = if item.id == 4 {
                    if self.player.flags.has_dragon_scale {
                        self.messages.already_has_dragon_scale();
                    } else {
                        self.messages.used_dragon_scale();
                        self.player.flags = crate::status::Flags {
                            has_dragon_scale: true,
                            ..self.player.flags
                        };
                    }
                    true
                } else if item.id == 5 {
                    self.messages.used_flute();
                    if self.monster.behavior.index == 32 {
                        self.messages.used_flute_monster_fell_asleep();
                        self.monster_state = BattleState { sleep: true, ..self.monster_state };
                    } else {
                        self.messages.nothing_happened();
                    }
                    true
                } else if item.id == 6 {
                    if self.player.flags.has_warrior_ring {
                        self.messages.reequipped_warrior_ring();
                    } else {
                        self.messages.used_warrior_ring();
                        self.player.equip_warrior_ring();
                    }
                    true
                } else if item.id == 9 {
                    if self.player.is_curse_belt {
                        self.messages.cursed_belt_constricting();
                    } else {
                        self.messages.used_cursed_belt();
                        self.messages.cursed_belt_activated();
                        self.player.equip_cursed_belt();
                    }
                    true
                } else if item.id == 10 {
                    self.messages.used_lyre_and_monster_rejoiced();
                    true
                } else if item.id == 11 {
                    if self.player.is_curse_necklace {
                        self.messages.cursed_necklace_constricting();
                    } else {
                        self.messages.used_cursed_necklace();
                        self.messages.cursed_necklace_activated();
                        self.player.equip_cursed_necklace();
                    }
                    true
                } else {
                    self.messages.can_not_use_by_battle();
                    self.messages.display();
                    self.messages.clear();
                    false
                };
                proof {
                    assert(spec_item_outcome(*old(self), *self, item));
                }
                done
            },
        }
    }

    /// The escape command: announce the attempt, roll the escape
    /// inequality against the monster's band, and either set the escaped
    /// flag or append the blocked line with the flag unchanged.
    pub fn player_action_escape(&mut self)
        ensures
            final(self).player == old(self).player,
            final(self).monster == old(self).monster,
            final(self).monster_state == old(self).monster_state,
            final(self).player_state.sleep == old(self).player_state.sleep,
            final(self).player_state.seal == old(self).player_state.seal,
            final(self).messages.player_name == old(self).messages.player_name,
            final(self).messages.monster_name == old(self).messages.monster_name,
            exists|d1: int, d2: int|
                #![trigger spec_escape_success(crate::player::spec_player_status(old(self).player).agility as int, old(self).monster.stats.defense as int, d1, d2)]
                0 <= d1 <= 255 && 0 <= d2 <= spec_escape_rand_max(
                    old(self).monster.behavior.index as int,
                ) && ({
                    let esc = spec_escape_success(
                        crate::player::spec_player_status(old(self).player).agility as int,
                        old(self).monster.stats.defense as int,
                        d1,
                        d2,
                    );
                    &&& final(self).player_state.escaped == (old(self).player_state.escaped || esc)
                    &&& final(self).messages.lines() == old(self).messages.lines().push(
                        old(self).messages.player_name@ + "は にげだした！"@,
                    ) + (if esc {
                        Seq::<Seq<char>>::empty()
                    } else {
                        seq!["しかし まわりこまれてしまった！ \n"@]
                    })
                }),
    {
        self.messages.player_escaped();
        let is_escape = self.is_escape();
        if is_escape {
            self.player_state = BattleState { escaped: true, ..self.player_state };
            proof {
                assert(final(self).messages.lines() =~~= old(self).messages.lines().push(
                    old(self).messages.player_name@ + "は にげだした！"@,
                ) + Seq::<Seq<char>>::empty());
            }
        } else {
            self.messages.escape_blocked();
            proof {
                assert(final(self).messages.lines() =~~= old(self).messages.lines().push(
                    old(self).messages.player_name@ + "は にげだした！"@,
                ) + seq!["しかし まわりこまれてしまった！ \n"@]);
            }
        }
    }

    /// Runs the command menu until a choice consumes the turn; a
    /// cancelled sub-menu re-prompts. The retry counter only satisfies
    /// the termination check: a session that cancels a billion times in
    /// one turn ends it with a plain attack.
    pub fn commands(&mut self)
        ensures
            final(self).player.name == old(self).player.name,
            final(self).player.exp == old(self).player.exp,
            final(self).player.gold == old(self).player.gold,
            final(self).player.keys == old(self).player.keys,
            final(self).player.items == old(self).player.items,
            final(self).monster.stats == old(self).monster.stats,
            final(self).monster.behavior == old(self).monster.behavior,
            final(self).monster.hp <= old(self).monster.hp,
            final(self).monster_state.escaped == old(self).monster_state.escaped,
            final(self).player_state.sleep == old(self).player_state.sleep,
            final(self).player_state.seal == old(self).player_state.seal,
            old(self).player.hp > 0 ==> final(self).player.hp > 0,
            final(self).player_state.escaped ==> old(self).player_state.escaped || final(self)
                .monster.hp == old(self).monster.hp,
    {
        let mut finished = false;
        let mut retries: u32 = 1_000_000_000;
        while !finished
            invariant
                self.player.name == old(self).player.name,
                self.player.exp == old(self).player.exp,
                self.player.gold == old(self).player.gold,
                self.player.keys == old(self).player.keys,
                self.player.items == old(self).player.items,
                self.monster.stats == old(self).monster.stats,
                self.monster.behavior == old(self).monster.behavior,
                self.monster.hp <= old(self).monster.hp,
                self.monster_state.escaped == old(self).monster_state.escaped,
                self.player_state.sleep == old(self).player_state.sleep,
                self.player_state.seal == old(self).player_state.seal,
                old(self).player.hp > 0 ==> self.player.hp > 0,
                self.player_state.escaped ==> old(self).player_state.escaped || self.monster.hp
                    == old(self).monster.hp,
                !finished ==> self.monster.hp == old(self).monster.hp,
                !finished ==> self.player_state.escaped == old(self).player_state.escaped,
            decreases retries, (if finished { 0int } else { 1int }),
        {
            let action = self.input.get_player_action();
            let done = match action {
                PlayerAction::Attack => {
                    self.player_action_attack();
                    true
                },
                PlayerAction::Spell => self.player_action_spell(),
                PlayerAction::Item => self.player_action_item(),
                PlayerAction::Escape => {
                    self.player_action_escape();
                    true
                },
            };
            if done {
                finished = true;
            } else if retries == 0 {
                self.player_action_attack();
                finished = true;
            } else {
                retries = retries - 1;
                self.messages.clear();
                self.display_command();
            }
        }
    }

    /// Runs the whole encounter to its end: turns alternate while both
    /// sides stand and stay; then the ending lines are emitted. When the
    /// loop leaves, one side has fallen or fled. The turn counter only
    /// satisfies the termination check: an encounter a trillion turns
    /// long is abandoned as fled.
    pub fn start(&mut self)
        ensures
            !spec_battle_continue(*final(self)),
            final(self).player.name == old(self).player.name,
            final(self).player.exp == old(self).player.exp,
            final(self).player.gold == old(self).player.gold,
            final(self).player.keys == old(self).player.keys,
            final(self).player.items == old(self).player.items,
            final(self).monster.stats == old(self).monster.stats,
            final(self).monster.behavior == old(self).monster.behavior,
            spec_clean_start(*old(self)) ==> spec_exactly_one_outcome(*final(self)),
            spec_clean_start(*old(self)) && final(self).player_state.escaped ==> final(self)
                .messages.lines() =~~= seq![""@],
            spec_clean_start(*old(self)) && final(self).monster_state.escaped ==> final(self)
                .messages.lines().len() == 0,
            spec_clean_start(*old(self)) && !final(self).player_state.escaped && !final(self)
                .monster_state.escaped && final(self).player.hp == 0 ==> final(self).messages
                .lines() =~~= seq!["あなたは しにました"@],
            spec_clean_start(*old(self)) && !final(self).player_state.escaped && !final(self)
                .monster_state.escaped && final(self).player.hp > 0 ==> exists|g: int|
                #![trigger spec_dec(g)]
                3 * final(self).monster.stats.gold as int / 4 <= g <= final(self).monster.stats
                    .gold as int && final(self).messages.lines() =~~= spec_reward_lines(
                    final(self).messages.monster_name@,
                    final(self).monster.stats.exp as int,
                    g,
                ),
    {
        self.messages.add_monster_appears();
        self.update_status();
        self.messages.display();
        self.messages.clear();
        let ghost clean = spec_clean_start(*old(self));
        let mut running = self.is_battle_continue();
        let mut turns: u64 = 1_000_000_000_000;
        while running
            invariant
                clean == spec_clean_start(*old(self)),
                self.player.name == old(self).player.name,
                self.player.exp == old(self).player.exp,
                self.player.gold == old(self).player.gold,
                self.player.keys == old(self).player.keys,
                self.player.items == old(self).player.items,
                self.monster.stats == old(self).monster.stats,
                self.monster.behavior == old(self).monster.behavior,
                self.messages.lines().len() == 0,
                running == spec_battle_continue(*self),
                clean ==> !(self.player_state.escaped && self.monster_state.escaped),
                clean ==> (self.player_state.escaped ==> self.player.hp > 0 && self.monster.hp > 0
                    && !self.monster_state.escaped),
                clean ==> (self.monster_state.escaped ==> self.monster.hp > 0 && self.player.hp > 0
                    && !self.player_state.escaped),
                clean ==> !(self.player.hp == 0 && self.monster.hp == 0),
            decreases turns, (if running { 1int } else { 0int }),
        {
            self.player_turn();
            if !self.player_state.escaped {
                if self.monster.is_alive() {
                    self.monster_turn();
                }
                self.update_status();
            }
            self.messages.display();
            self.messages.clear();
            if turns == 0 {
                if self.is_battle_continue() {
                    self.player_state = BattleState { escaped: true, ..self.player_state };
                }
            } else {
                turns = turns - 1;
            }
            running = self.is_battle_continue();
        }
        proof {
            assert(!spec_battle_continue(*self));
        }
        if self.player_state.escaped {
            self.messages.add_empty_line();
            self.messages.display();
            proof {
                assert(self.messages.lines() =~~= seq![""@]);
            }
        } else if !self.monster_state.escaped {
            if self.player.is_alive() {
                let gold = self.monster.get_gold();
                let exp = self.monster.stats.exp;
                self.messages.add_defeat_monster(exp as u16, gold as u32);
                proof {
                    assert(self.messages.lines() =~~= spec_reward_lines(
                        self.messages.monster_name@,
                        self.monster.stats.exp as int,
                        gold as int,
                    ));
                }
            } else {
                self.messages.add_player_death();
                proof {
                    assert(self.messages.lines() =~~= seq!["あなたは しにました"@]);
                }
            }
            self.messages.display();
        }
    }
}

/// A herb entry in the item menu means the player holds at least one
/// herb.
proof fn lemma_menu_herb_has_herbs(p: Player, item: UnifiedItem)
    requires
        crate::player::spec_unified_items(p).contains(item),
        item.kind == ItemKind::Herb,
    ensures
        p.herbs > 0,
{
    lemma_equipment_entries_not_herb(p.items@);
    let all = crate::player::spec_unified_items(p);
    let head = crate::player::spec_menu_head(p);
    let entries = crate::player::spec_equipment_entries(p.items@);
    let i = choose|i: int| 0 <= i < all.len() && all[i] == item;
    if i >= head.len() {
        assert(all[i] == entries[i - head.len()]);
        assert(false);
    } else {
        assert(all[i] == head[i]);
        if p.herbs == 0 {
            assert(head[i].kind == ItemKind::Key);
            assert(false);
        }
    }
}

/// No equipment slot ever contributes a herb entry.
proof fn lemma_equipment_entries_not_herb(items: Seq<u8>)
    ensures
        forall|i: int|
            0 <= i < crate::player::spec_equipment_entries(items).len() ==> (
            #[trigger] crate::player::spec_equipment_entries(items)[i]).kind
                == ItemKind::Equipment,
    decreases items.len(),
{
    if items.len() > 0 {
        lemma_equipment_entries_not_herb(items.drop_last());
        let rest = crate::player::spec_equipment_entries(items.drop_last());
        let whole = crate::player::spec_equipment_entries(items);
        if whole.len() > rest.len() {
            assert forall|i: int| 0 <= i < whole.len() implies (#[trigger] whole[i]).kind
                == ItemKind::Equipment by {
                if i < rest.len() {
                    assert(whole[i] == rest[i]);
                }
            }
        }
    }
}

} // verus!
