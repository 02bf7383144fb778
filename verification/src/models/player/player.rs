//! The player.

use crate::models::game_state::main_arc::MainArc;
use crate::models::player::background::Background;
use crate::models::player::gender::Gender;
use crate::models::player::height::Height;
use crate::text::{decimal, from_chars, push_decimal, push_text};
use chrono::NaiveDateTime;
use sha2::{Digest, Sha256};
use vstd::prelude::*;

verus! {

/// A player of the game.
#[derive(Clone, Debug)]
pub struct Player {
    /// The number that the save file gives the player; zero before that.
    pub id: i32,
    pub name: String,
    pub gender: Gender,
    pub height: Height,
    pub background: Background,
    pub main_arc: MainArc,
    pub created_at: NaiveDateTime,
    pub updated_at: NaiveDateTime,
}

/// The SHA-256 digest of a sequence of bytes, as `sha2` computes it.
pub uninterp spec fn sha256(data: Seq<u8>) -> Seq<u8>;

/// Calls `Sha256::digest` of `sha2` on the bytes and copies the digest out.
/// The contract names the digest and says that it is 32 bytes long.
#[verifier::external_body]
fn sha256_digest(data: &[u8]) -> (out: Vec<u8>)
    ensures
        out@ == sha256(data@),
        out@.len() == 32,
{
    Sha256::digest(data).to_vec()
}

/// The text that a seed is drawn from: the five parts with colons between.
pub open spec fn seed_text(
    player_name: Seq<char>,
    gender: Seq<char>,
    height: u8,
    background: Seq<char>,
    timestamp: u64,
) -> Seq<char> {
    player_name + seq![':'] + gender + seq![':'] + decimal(height as nat) + seq![':'] + background
        + seq![':'] + decimal(timestamp as nat)
}

/// The number that the first eight bytes spell, the lowest byte first.
pub open spec fn le_u64(bytes: Seq<u8>) -> int
    recommends
        bytes.len() >= 8,
{
    bytes[0] + 0x100 * bytes[1] + 0x1_0000 * bytes[2] + 0x100_0000 * bytes[3] + 0x1_0000_0000
        * bytes[4] + 0x100_0000_0000 * bytes[5] + 0x1_0000_0000_0000 * bytes[6]
        + 0x100_0000_0000_0000 * bytes[7]
}

/// The seed that a digest gives: its first eight bytes as one number, the
/// lowest byte first.
pub fn seed_from_digest(digest: &Vec<u8>) -> (seed: u64)
    requires
        digest@.len() >= 8,
    ensures
        seed == le_u64(digest@),
{
    (digest[0] as u64) + 0x100 * (digest[1] as u64) + 0x1_0000 * (digest[2] as u64) + 0x100_0000 * (
    digest[3] as u64) + 0x1_0000_0000 * (digest[4] as u64) + 0x100_0000_0000 * (digest[5] as u64)
        + 0x1_0000_0000_0000 * (digest[6] as u64) + 0x100_0000_0000_0000 * (digest[7] as u64)
}

impl Player {
    /// A player who has not been saved yet, of undetermined background and
    /// arc, made at the given time.
    pub fn new(name: String, gender: Gender, height: Height, now: NaiveDateTime) -> (player: Player)
        ensures
            player.id == 0,
            player.name == name,
            player.gender == gender,
            player.height == height,
            player.background == Background::Undetermined,
            player.main_arc == MainArc::Undetermined,
            player.created_at == now,
            player.updated_at == now,
    {
        Player {
            id: 0,
            name,
            gender,
            height,
            background: Background::Undetermined,
            main_arc: MainArc::Undetermined,
            created_at: now,
            updated_at: now,
        }
    }

    /// The seed of a player: the start of the SHA-256 digest of what
    /// describes them and of the time.
    pub fn generate_seed(
        player_name: &str,
        gender: &str,
        height: u8,
        background: &str,
        timestamp: u64,
    ) -> (seed: u64)
        ensures
            seed == le_u64(
                sha256(
                    vstd::utf8::encode_utf8(
                        seed_text(player_name@, gender@, height, background@, timestamp),
                    ),
                ),
            ),
    {
        let mut input: Vec<char> = Vec::new();
        push_text(&mut input, player_name);
        input.push(':');
        push_text(&mut input, gender);
        input.push(':');
        push_decimal(&mut input, height as u64);
        input.push(':');
        push_text(&mut input, background);
        input.push(':');
        push_decimal(&mut input, timestamp);
        assert(input@ =~= seed_text(player_name@, gender@, height, background@, timestamp));
        let text: String = from_chars(&input);
        let digest: Vec<u8> = sha256_digest(text.as_str().as_bytes());
        seed_from_digest(&digest)
    }
}

} // verus!
