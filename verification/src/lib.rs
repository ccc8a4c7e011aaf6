use vstd::prelude::*;

pub mod battle;
pub mod battle_types;
pub mod binary_utils;
pub mod buffer_output;
pub mod digits;
pub mod growth_type;
pub mod item_weapon;
pub mod load;
pub mod message;
pub mod message_output;
pub mod monster;
pub mod monster_data;
pub mod monster_utils;
pub mod player;
pub mod player_input;
pub mod random_utils;
pub mod raw_bits;
pub mod save;
pub mod save_data;
pub mod spell;
pub mod spell_utils;
pub mod status;
pub mod status_table;
pub mod status_utils;
pub mod string_utils;
pub mod text;
pub mod web_input;

