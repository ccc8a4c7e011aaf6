use vstd::prelude::*;

verus! {

use crate::digits::{spec_dec, u16_to_string};
use crate::message_output::MessageOutput;
use vstd::string::StringExecFns;

/// A plain ordered buffer of finished lines.
#[derive(Debug)]
pub struct Messages {
    pub messages: Vec<String>,
}

impl Messages {
    /// Appends one line.
    pub fn push(&mut self, msg: String)
        ensures
            final(self).messages@ == old(self).messages@.push(msg),
    {
        self.messages.push(msg);
    }

    /// Drops every line.
    pub fn clear(&mut self)
        ensures
            final(self).messages@.len() == 0,
    {
        self.messages.clear();
    }

    /// All lines, oldest first.
    pub fn all(&self) -> (r: &Vec<String>)
        ensures
            r == &self.messages,
    {
        &self.messages
    }
}

/// The battle's line buffer: it knows both names, collects the lines of
/// the action at hand, and flushes them into the sink in one piece.
pub struct BattleMessages<O: MessageOutput> {
    pub player_name: String,
    pub monster_name: String,
    pub messages: Vec<String>,
    pub output: O,
}

impl<O: MessageOutput> BattleMessages<O> {
    /// The pending lines as plain character sequences.
    pub open spec fn lines(self) -> Seq<Seq<char>> {
        self.messages@.map_values(|s: String| s@)
    }

    fn push_line(&mut self, line: String)
        ensures
            final(self).lines() == old(self).lines().push(line@),
            final(self).messages@ == old(self).messages@.push(line),
            final(self).player_name == old(self).player_name,
            final(self).monster_name == old(self).monster_name,
    {
        let ghost pre = self.lines();
        self.messages.push(line);
        proof {
            assert(self.lines() =~~= pre.push(line@));
        }
    }

    pub fn new(player_name: String, monster_name: String, output: O) -> (r: BattleMessages<O>)
        ensures
            r.player_name == player_name,
            r.monster_name == monster_name,
            r.messages@.len() == 0,
            r.lines().len() == 0,
    {
        BattleMessages { player_name, monster_name, messages: Vec::new(), output }
    }

    /// Appends one line.
    pub fn push(&mut self, msg: String)
        ensures
            final(self).lines() == old(self).lines().push(msg@),
            final(self).player_name == old(self).player_name,
            final(self).monster_name == old(self).monster_name,
    {
        self.push_line(msg);
    }

    /// Drops the pending lines.
    pub fn clear(&mut self)
        ensures
            final(self).messages@.len() == 0,
            final(self).lines().len() == 0,
            final(self).player_name == old(self).player_name,
            final(self).monster_name == old(self).monster_name,
    {
        self.messages.clear();
    }

    /// The pending lines, oldest first.
    pub fn all(&self) -> (r: &Vec<String>)
        ensures
            r == &self.messages,
    {
        &self.messages
    }

    /// Hands every pending line to the sink, in order; the buffer keeps
    /// them.
    pub fn display(&mut self)
        ensures
            final(self).messages == old(self).messages,
            final(self).player_name == old(self).player_name,
            final(self).monster_name == old(self).monster_name,
    {
        let n = self.messages.len();
        let mut i: usize = 0;
        while i < n
            invariant
                n == self.messages@.len(),
                i <= n,
                self.messages == old(self).messages,
                self.player_name == old(self).player_name,
                self.monster_name == old(self).monster_name,
            decreases n - i,
        {
            self.output.output(self.messages[i].as_str());
            i = i + 1;
        }
    }

    pub fn add_monster_appears(&mut self)
        ensures
            final(self).lines() == old(self).lines().push(old(self).monster_name@ + "があらわれた！"@),
            final(self).player_name == old(self).player_name,
            final(self).monster_name == old(self).monster_name,
    {
        let mut line = self.monster_name.clone();
        line.append("があらわれた！");
        self.push_line(line);
    }

    pub fn add_status(&mut self, player_hp: u8, player_mp: u8, monster_hp: u8)
        ensures
            final(self).lines() == old(self).lines().push(""@).push(
                old(self).player_name@ + " HP: "@ + spec_dec(player_hp as int) + " MP: "@
                    + spec_dec(player_mp as int),
            ).push(old(self).monster_name@ + " HP: "@ + spec_dec(monster_hp as int)).push(""@),
            final(self).player_name == old(self).player_name,
            final(self).monster_name == old(self).monster_name,
    {
        self.push_line(String::from_str(""));
        let mut line = self.player_name.clone();
        line.append(" HP: ");
        line.append(u16_to_string(player_hp as u16).as_str());
        line.append(" MP: ");
        line.append(u16_to_string(player_mp as u16).as_str());
        self.push_line(line);
        let mut line2 = self.monster_name.clone();
        line2.append(" HP: ");
        line2.append(u16_to_string(monster_hp as u16).as_str());
        self.push_line(line2);
        self.push_line(String::from_str(""));
    }

    pub fn add_player_attack(&mut self, player_name: &str)
        ensures
            final(self).lines() == old(self).lines().push(player_name@ + " のこうげき！"@),
            final(self).player_name == old(self).player_name,
            final(self).monster_name == old(self).monster_name,
    {
        let mut line = String::from_str(player_name);
        line.append(" のこうげき！");
        self.push_line(line);
    }

    pub fn add_monster_damage(&mut self, damage: u8)
        ensures
            final(self).lines() == old(self).lines().push(
                old(self).monster_name@ + "に "@ + spec_dec(damage as int) + "ポイントの"@,
            ).push("ダメージを あたえた！"@),
            final(self).player_name == old(self).player_name,
            final(self).monster_name == old(self).monster_name,
    {
        let mut line = self.monster_name.clone();
        line.append("に ");
        line.append(u16_to_string(damage as u16).as_str());
        line.append("ポイントの");
        self.push_line(line);
        self.push_line(String::from_str("ダメージを あたえた！"));
    }

    pub fn add_player_damage(&mut self, damage: u8)
        ensures
            final(self).lines() == old(self).lines().push(
                " "@ + old(self).player_name@ + "は "@ + spec_dec(damage as int) + "ポイントの"@,
            ).push(" ダメージを うけた！"@),
            final(self).player_name == old(self).player_name,
            final(self).monster_name == old(self).monster_name,
    {
        let mut line = String::from_str(" ");
        line.append(self.player_name.as_str());
        line.append("は ");
        line.append(u16_to_string(damage as u16).as_str());
        line.append("ポイントの");
        self.push_line(line);
        self.push_line(String::from_str(" ダメージを うけた！"));
    }

    pub fn add_miss(&mut self)
        ensures
            final(self).lines() == old(self).lines().push("ミス"@),
            final(self).player_name == old(self).player_name,
            final(self).monster_name == old(self).monster_name,
    {
        self.push_line(String::from_str("ミス"));
    }

    pub fn add_monster_attack(&mut self)
        ensures
            final(self).lines() == old(self).lines().push(
                " "@ + old(self).monster_name@ + " のこうげき！"@,
            ),
            final(self).player_name == old(self).player_name,
            final(self).monster_name == old(self).monster_name,
    {
        let mut line = String::from_str(" ");
        line.append(self.monster_name.as_str());
        line.append(" のこうげき！");
        self.push_line(line);
    }

    pub fn add_use_spell(&mut self, spell_name: &str)
        ensures
            final(self).lines() == old(self).lines().push(
                old(self).player_name@ + "は "@ + spell_name@ + "の"@,
            ).push("じゅもんを となえた！"@),
            final(self).player_name == old(self).player_name,
            final(self).monster_name == old(self).monster_name,
    {
        let mut line = self.player_name.clone();
        line.append("は ");
        line.append(spell_name);
        line.append("の");
        self.push_line(line);
        self.push_line(String::from_str("じゅもんを となえた！"));
    }

    pub fn add_monster_spell(&mut self, spell_name: &str)
        ensures
            final(self).lines() == old(self).lines().push(
                " "@ + old(self).monster_name@ + "は "@ + spell_name@ + "の"@,
            ).push(" じゅもんを となえた！"@),
            final(self).player_name == old(self).player_name,
            final(self).monster_name == old(self).monster_name,
    {
        let mut line = String::from_str(" ");
        line.append(self.monster_name.as_str());
        line.append("は ");
        line.append(spell_name);
        line.append("の");
        self.push_line(line);
        self.push_line(String::from_str(" じゅもんを となえた！"));
    }

    pub fn add_spell_sealed(&mut self)
        ensures
            final(self).lines() == old(self).lines().push("しかし じゅもんは"@).push(
                "ふうじこまれている！"@,
            ),
            final(self).player_name == old(self).player_name,
            final(self).monster_name == old(self).monster_name,
    {
        self.push_line(String::from_str("しかし じゅもんは"));
        self.push_line(String::from_str("ふうじこまれている！"));
    }

    pub fn add_empty_line(&mut self)
        ensures
            final(self).lines() == old(self).lines().push(""@),
            final(self).player_name == old(self).player_name,
            final(self).monster_name == old(self).monster_name,
    {
        self.push_line(String::from_str(""));
    }

    pub fn add_defeat_monster(&mut self, exp: u16, gold: u32)
        requires
            gold <= 65535,
        ensures
            final(self).lines() == old(self).lines().push(
                old(self).monster_name@ + " をたおした！"@,
            ).push(""@).push("けいけんち "@ + spec_dec(exp as int) + "ポイントかくとく"@).push(
                spec_dec(gold as int) + "ゴールドを てにいれた！"@,
            ),
            final(self).player_name == old(self).player_name,
            final(self).monster_name == old(self).monster_name,
    {
        let mut line = self.monster_name.clone();
        line.append(" をたおした！");
        self.push_line(line);
        self.push_line(String::from_str(""));
        let mut line2 = String::from_str("けいけんち ");
        line2.append(u16_to_string(exp).as_str());
        line2.append("ポイントかくとく");
        self.push_line(line2);
        let mut line3 = u16_to_string(gold as u16);
        line3.append("ゴールドを てにいれた！");
        self.push_line(line3);
    }

    pub fn add_player_death(&mut self)
        ensures
            final(self).lines() == old(self).lines().push("あなたは しにました"@),
            final(self).player_name == old(self).player_name,
            final(self).monster_name == old(self).monster_name,
    {
        self.push_line(String::from_str("あなたは しにました"));
    }

    pub fn display_command(&mut self)
        ensures
            final(self).lines() == old(self).lines().push(
                "\n--- "@ + old(self).player_name@ + "のターン ---"@,
            ).push("コマンド？"@).push("1: たたかう"@).push("2: じゅもん"@).push("3: どうぐ"@).push(
                "4: にげる"@,
            ),
            final(self).player_name == old(self).player_name,
            final(self).monster_name == old(self).monster_name,
    {
        let mut line = String::from_str("\n--- ");
        line.append(self.player_name.as_str());
        line.append("のターン ---");
        self.push_line(line);
        self.push_line(String::from_str("コマンド？"));
        self.push_line(String::from_str("1: たたかう"));
        self.push_line(String::from_str("2: じゅもん"));
        self.push_line(String::from_str("3: どうぐ"));
        self.push_line(String::from_str("4: にげる"));
    }

    pub fn spells_sealed(&mut self)
        ensures
            final(self).lines() == old(self).lines().push(
                old(self).player_name@ + "は じゅもんを"@,
            ).push("ふうじこめられた！"@),
            final(self).player_name == old(self).player_name,
            final(self).monster_name == old(self).monster_name,
    {
        let mut line = self.player_name.clone();
        line.append("は じゅもんを");
        self.push_line(line);
        self.push_line(String::from_str("ふうじこめられた！"));
    }

    pub fn can_not_use_spell(&mut self)
        ensures
            final(self).lines() == old(self).lines().push(
                old(self).player_name@ + "は まだ じゅもんを"@,
            ).push("つかえない。"@),
            final(self).player_name == old(self).player_name,
            final(self).monster_name == old(self).monster_name,
    {
        let mut line = self.player_name.clone();
        line.append("は まだ じゅもんを");
        self.push_line(line);
        self.push_line(String::from_str("つかえない。"));
    }

    pub fn can_not_use_by_battle(&mut self)
        ensures
            final(self).lines() == old(self).lines().push("それは たたかいに つかえない！"@),
            final(self).player_name == old(self).player_name,
            final(self).monster_name == old(self).monster_name,
    {
        self.push_line(String::from_str("それは たたかいに つかえない！"));
    }

    pub fn critical_damage(&mut self)
        ensures
            final(self).lines() == old(self).lines().push("かいしんの いちげき！！"@),
            final(self).player_name == old(self).player_name,
            final(self).monster_name == old(self).monster_name,
    {
        self.push_line(String::from_str("かいしんの いちげき！！"));
    }

    pub fn monster_heal(&mut self)
        ensures
            final(self).lines() == old(self).lines().push(
                " "@ + old(self).monster_name@ + "は きずが"@,
            ).push(" かいふくした！"@),
            final(self).player_name == old(self).player_name,
            final(self).monster_name == old(self).monster_name,
    {
        let mut line = String::from_str(" ");
        line.append(self.monster_name.as_str());
        line.append("は きずが");
        self.push_line(line);
        self.push_line(String::from_str(" かいふくした！"));
    }

    pub fn fall_asleep(&mut self)
        ensures
            final(self).lines() == old(self).lines().push(
                old(self).player_name@ + "は ねむってしまった！"@,
            ),
            final(self).player_name == old(self).player_name,
            final(self).monster_name == old(self).monster_name,
    {
        let mut line = self.player_name.clone();
        line.append("は ねむってしまった！");
        self.push_line(line);
    }

    pub fn wake_up(&mut self)
        ensures
            final(self).lines() == old(self).lines().push(
                old(self).player_name@ + "は めをさました！"@,
            ),
            final(self).player_name == old(self).player_name,
            final(self).monster_name == old(self).monster_name,
    {
        let mut line = self.player_name.clone();
        line.append("は めをさました！");
        self.push_line(line);
    }

    pub fn still_asleep(&mut self)
        ensures
            final(self).lines() == old(self).lines().push(
                old(self).player_name@ + "は ねむっている⋯⋯⋯"@,
            ),
            final(self).player_name == old(self).player_name,
            final(self).monster_name == old(self).monster_name,
    {
        let mut line = self.player_name.clone();
        line.append("は ねむっている⋯⋯⋯");
        self.push_line(line);
    }

    pub fn monster_fall_asleep(&mut self)
        ensures
            final(self).lines() == old(self).lines().push(
                old(self).monster_name@ + "を ねむらせた!"@,
            ),
            final(self).player_name == old(self).player_name,
            final(self).monster_name == old(self).monster_name,
    {
        let mut line = self.monster_name.clone();
        line.append("を ねむらせた!");
        self.push_line(line);
    }

    pub fn monster_wake_up(&mut self)
        ensures
            final(self).lines() == old(self).lines().push(
                old(self).monster_name@ + "は めをさました！"@,
            ),
            final(self).player_name == old(self).player_name,
            final(self).monster_name == old(self).monster_name,
    {
        let mut line = self.monster_name.clone();
        line.append("は めをさました！");
        self.push_line(line);
    }

    pub fn monster_still_asleep(&mut self)
        ensures
            final(self).lines() == old(self).lines().push(
                old(self).monster_name@ + "は ねむっている⋯⋯⋯"@,
            ),
            final(self).player_name == old(self).player_name,
            final(self).monster_name == old(self).monster_name,
    {
        let mut line = self.monster_name.clone();
        line.append("は ねむっている⋯⋯⋯");
        self.push_line(line);
    }

    /// The whole breath or special line block: who acted, what happened,
    /// and the damage taken.
    pub fn enemy_special_skill(&mut self, name: &str, damage: u8)
        ensures
            final(self).lines().len() == old(self).lines().len() + 5,
            final(self).lines().subrange(0, old(self).lines().len() as int) == old(self).lines(),
            final(self).player_name == old(self).player_name,
            final(self).monster_name == old(self).monster_name,
    {
        let mut line = String::from_str(" ");
        line.append(self.monster_name.as_str());
        line.append("は ");
        self.push_line(line);
        if crate::string_utils::str_eq(name, "ほのお(弱)") || crate::string_utils::str_eq(
            name,
            "ほのお(強)",
        ) {
            self.push_line(String::from_str(" ほのおをはいた!"));
        } else {
            let mut line2 = String::from_str(" ");
            line2.append(name);
            line2.append("を使った！");
            self.push_line(line2);
        }
        self.add_empty_line();
        self.add_player_damage(damage);
        proof {
            assert(self.lines().subrange(0, old(self).lines().len() as int) =~~= old(self).lines());
        }
    }

    pub fn spell_resisted(&mut self)
        ensures
            final(self).lines() == old(self).lines().push("しかし じゅもんは きかなかった！\n"@),
            final(self).player_name == old(self).player_name,
            final(self).monster_name == old(self).monster_name,
    {
        self.push_line(String::from_str("しかし じゅもんは きかなかった！\n"));
    }

    pub fn spell_sealed(&mut self)
        ensures
            final(self).lines() == old(self).lines().push(
                "しかし じゅもんは ふうじこまれている！"@,
            ),
            final(self).player_name == old(self).player_name,
            final(self).monster_name == old(self).monster_name,
    {
        self.push_line(String::from_str("しかし じゅもんは ふうじこまれている！"));
    }

    pub fn mp_not_enough(&mut self)
        ensures
            final(self).lines() == old(self).lines().push("MP が たりません。"@),
            final(self).player_name == old(self).player_name,
            final(self).monster_name == old(self).monster_name,
    {
        self.push_line(String::from_str("MP が たりません。"));
    }

    pub fn monster_escaped(&mut self)
        ensures
            final(self).lines() == old(self).lines().push(
                old(self).monster_name@ + " は にげだした！"@,
            ),
            final(self).player_name == old(self).player_name,
            final(self).monster_name == old(self).monster_name,
    {
        let mut line = self.monster_name.clone();
        line.append(" は にげだした！");
        self.push_line(line);
    }

    pub fn seal_monster_spell(&mut self)
        ensures
            final(self).lines() == old(self).lines().push(
                old(self).monster_name@ + "の じゅもんを"@,
            ).push("ふうじこめた！"@),
            final(self).player_name == old(self).player_name,
            final(self).monster_name == old(self).monster_name,
    {
        let mut line = self.monster_name.clone();
        line.append("の じゅもんを");
        self.push_line(line);
        self.push_line(String::from_str("ふうじこめた！"));
    }

    pub fn no_usable_items(&mut self)
        ensures
            final(self).lines() == old(self).lines().push("つかえるものを まだ"@).push(
                "もっていない。"@,
            ),
            final(self).player_name == old(self).player_name,
            final(self).monster_name == old(self).monster_name,
    {
        self.push_line(String::from_str("つかえるものを まだ"));
        self.push_line(String::from_str("もっていない。"));
    }

    pub fn used_item_herbs(&mut self)
        ensures
            final(self).lines() == old(self).lines().push(
                old(self).player_name@ + "は やくそうを つかった！"@,
            ),
            final(self).player_name == old(self).player_name,
            final(self).monster_name == old(self).monster_name,
    {
        let mut line = self.player_name.clone();
        line.append("は やくそうを つかった！");
        self.push_line(line);
    }

    pub fn already_has_dragon_scale(&mut self)
        ensures
            final(self).lines() == old(self).lines().push("りゅうのうろこは すでに"@).push(
                "みにつけています。"@,
            ),
            final(self).player_name == old(self).player_name,
            final(self).monster_name == old(self).monster_name,
    {
        self.push_line(String::from_str("りゅうのうろこは すでに"));
        self.push_line(String::from_str("みにつけています。"));
    }

    pub fn used_dragon_scale(&mut self)
        ensures
            final(self).lines() == old(self).lines().push(
                old(self).player_name@ + "は りゅうのうろこを"@,
            ).push("みにつけた。"@),
            final(self).player_name == old(self).player_name,
            final(self).monster_name == old(self).monster_name,
    {
        let mut line = self.player_name.clone();
        line.append("は りゅうのうろこを");
        self.push_line(line);
        self.push_line(String::from_str("みにつけた。"));
    }

    pub fn used_flute(&mut self)
        ensures
            final(self).lines() == old(self).lines().push(
                old(self).player_name@ + "は ふえをふいた。"@,
            ),
            final(self).player_name == old(self).player_name,
            final(self).monster_name == old(self).monster_name,
    {
        let mut line = self.player_name.clone();
        line.append("は ふえをふいた。");
        self.push_line(line);
    }

    pub fn used_flute_monster_fell_asleep(&mut self)
        ensures
            final(self).lines() == old(self).lines().push(
                old(self).monster_name@ + "は しずかに めをとじる⋯"@,
            ).push("ねむってしまった！"@),
            final(self).player_name == old(self).player_name,
            final(self).monster_name == old(self).monster_name,
    {
        let mut line = self.monster_name.clone();
        line.append("は しずかに めをとじる⋯");
        self.push_line(line);
        self.push_line(String::from_str("ねむってしまった！"));
    }

    pub fn nothing_happened(&mut self)
        ensures
            final(self).lines() == old(self).lines().push("しかし なにも おきなかった。"@),
            final(self).player_name == old(self).player_name,
            final(self).monster_name == old(self).monster_name,
    {
        self.push_line(String::from_str("しかし なにも おきなかった。"));
    }

    pub fn used_warrior_ring(&mut self)
        ensures
            final(self).lines() == old(self).lines().push(
                old(self).player_name@ + "は せんしのゆびわを"@,
            ).push("はめた。"@),
            final(self).player_name == old(self).player_name,
            final(self).monster_name == old(self).monster_name,
    {
        let mut line = self.player_name.clone();
        line.append("は せんしのゆびわを");
        self.push_line(line);
        self.push_line(String::from_str("はめた。"));
    }

    pub fn reequipped_warrior_ring(&mut self)
        ensures
            final(self).lines() == old(self).lines().push(
                old(self).player_name@ + "は せんしのゆびわを"@,
            ).push("はめなおした。"@),
            final(self).player_name == old(self).player_name,
            final(self).monster_name == old(self).monster_name,
    {
        let mut line = self.player_name.clone();
        line.append("は せんしのゆびわを");
        self.push_line(line);
        self.push_line(String::from_str("はめなおした。"));
    }

    pub fn used_cursed_belt(&mut self)
        ensures
            final(self).lines() == old(self).lines().push(
                old(self).player_name@ + "は のろいのベルトを"@,
            ).push("みにつけた。"@),
            final(self).player_name == old(self).player_name,
            final(self).monster_name == old(self).monster_name,
    {
        let mut line = self.player_name.clone();
        line.append("は のろいのベルトを");
        self.push_line(line);
        self.push_line(String::from_str("みにつけた。"));
    }

    pub fn cursed_belt_constricting(&mut self)
        ensures
            final(self).lines() == old(self).lines().push("のろいのベルトが あなたの"@).push(
                "からだを しめつけている。"@,
            ),
            final(self).player_name == old(self).player_name,
            final(self).monster_name == old(self).monster_name,
    {
        self.push_line(String::from_str("のろいのベルトが あなたの"));
        self.push_line(String::from_str("からだを しめつけている。"));
    }

    pub fn cursed_belt_activated(&mut self)
        ensures
            final(self).lines() == old(self).lines().push("のろいのベルトが あなたの"@).push(
                "からだを しめつける。"@,
            ).push("あなたは のろわれてしまった。"@),
            final(self).player_name == old(self).player_name,
            final(self).monster_name == old(self).monster_name,
    {
        self.push_line(String::from_str("のろいのベルトが あなたの"));
        self.push_line(String::from_str("からだを しめつける。"));
        self.push_line(String::from_str("あなたは のろわれてしまった。"));
    }

    pub fn used_lyre_and_monster_rejoiced(&mut self)
        ensures
            final(self).lines() == old(self).lines().push(
                old(self).player_name@ + "は たてごとを かなでた。"@,
            ).push(old(self).monster_name@ + "は うれしそうだ!"@),
            final(self).player_name == old(self).player_name,
            final(self).monster_name == old(self).monster_name,
    {
        let mut line = self.player_name.clone();
        line.append("は たてごとを かなでた。");
        self.push_line(line);
        let mut line2 = self.monster_name.clone();
        line2.append("は うれしそうだ!");
        self.push_line(line2);
    }

    pub fn used_cursed_necklace(&mut self)
        ensures
            final(self).lines() == old(self).lines().push(
                old(self).player_name@ + "は しのくびかざりを"@,
            ).push("みにつけた。"@),
            final(self).player_name == old(self).player_name,
            final(self).monster_name == old(self).monster_name,
    {
        let mut line = self.player_name.clone();
        line.append("は しのくびかざりを");
        self.push_line(line);
        self.push_line(String::from_str("みにつけた。"));
    }

    pub fn cursed_necklace_constricting(&mut self)
        ensures
            final(self).lines() == old(self).lines().push("しのくびかざりが あなたの"@).push(
                "からだを しめつけている。"@,
            ),
            final(self).player_name == old(self).player_name,
            final(self).monster_name == old(self).monster_name,
    {
        self.push_line(String::from_str("しのくびかざりが あなたの"));
        self.push_line(String::from_str("からだを しめつけている。"));
    }

    pub fn cursed_necklace_activated(&mut self)
        ensures
            final(self).lines() == old(self).lines().push("しのくびかざりが あなたの"@).push(
                "からだを しめつける。"@,
            ).push("あなたは のろわれてしまった。"@),
            final(self).player_name == old(self).player_name,
            final(self).monster_name == old(self).monster_name,
    {
        self.push_line(String::from_str("しのくびかざりが あなたの"));
        self.push_line(String::from_str("からだを しめつける。"));
        self.push_line(String::from_str("あなたは のろわれてしまった。"));
    }

    pub fn player_escaped(&mut self)
        ensures
            final(self).lines() == old(self).lines().push(
                old(self).player_name@ + "は にげだした！"@,
            ),
            final(self).player_name == old(self).player_name,
            final(self).monster_name == old(self).monster_name,
    {
        let mut line = self.player_name.clone();
        line.append("は にげだした！");
        self.push_line(line);
    }

    pub fn escape_blocked(&mut self)
        ensures
            final(self).lines() == old(self).lines().push("しかし まわりこまれてしまった！ \n"@),
            final(self).player_name == old(self).player_name,
            final(self).monster_name == old(self).monster_name,
    {
        self.push_line(String::from_str("しかし まわりこまれてしまった！ \n"));
    }
}

} // verus!
