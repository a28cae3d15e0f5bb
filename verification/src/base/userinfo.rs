//! The user table, which says who sits behind which entity.

use vstd::prelude::*;
use bitbuffer::{BitReadBuffer, BitReadStream, LittleEndian};
use tf_demo_parser::demo::data::UserInfo;
use crate::base::state::{
    info_view, slot_of, with_player, CheatAnalyserState, PlayerView, StateView, UserInfoView,
};
use crate::util::text::{decimal_u32, parse_u32, same_text};

verus! {

/// The identity record that an entry of the user table holds: `index` is the
/// entry's position, `text` its key and `data` its payload. `None` where the
/// entry holds no complete record.
pub uninterp spec fn decoded_user_info(
    index: u16,
    text: Option<Seq<char>>,
    data: Option<Seq<u8>>,
) -> Option<UserInfoView>;

/// The view of an optional text.
pub open spec fn text_view(text: Option<&str>) -> Option<Seq<char>> {
    match text {
        Some(t) => Some(t@),
        None => None,
    }
}

/// The view of an optional payload.
pub open spec fn data_view(data: Option<&Vec<u8>>) -> Option<Seq<u8>> {
    match data {
        Some(d) => Some(d@),
        None => None,
    }
}

/// Whether a key is the one numeral that the decoder cannot count past.
pub open spec fn is_last_slot(text: Option<Seq<char>>) -> bool {
    match text {
        Some(t) => decimal_u32(t) == Some(u32::MAX),
        None => false,
    }
}

/// Calls `UserInfo::parse_from_string_table` of the decoder on a stream over
/// the payload's bytes, and copies the entity handle, name, user id and
/// identity text out of what it returns. An entry that the decoder fails to
/// read counts as one without a record.
///
/// The contract only names the result. The decoder adds one to the number
/// that the key denotes, so the key for the largest number is left out.
#[verifier::external_body]
pub(crate) fn decode_user_info(index: u16, text: Option<&str>, data: Option<&Vec<u8>>) -> (info:
    Option<crate::base::state::UserInfo>)
    requires
        !is_last_slot(text_view(text)),
    ensures
        info_view(info) == decoded_user_info(index, text_view(text), data_view(data)),
{
    let stream = match data {
        Some(bytes) => Some(BitReadStream::new(BitReadBuffer::new(bytes.as_slice(), LittleEndian))),
        None => None,
    };
    match UserInfo::parse_from_string_table(index, text, stream) {
        Ok(Some(UserInfo { entity_id, player_info })) => Some(
            crate::base::state::UserInfo {
                entity_id: entity_id.into(),
                name: player_info.name,
                user_id: player_info.user_id.into(),
                steam_id: player_info.steam_id,
            },
        ),
        _ => None,
    }
}

/// The state after an entry of a string table. Only the table `userinfo`
/// matters: an entry of it that holds an identity record attaches the record
/// to the player whose entity handle it names, creating the player if it was
/// unknown and replacing what was attached before.
pub open spec fn string_entry_applied(
    s: StateView,
    table: Seq<char>,
    index: usize,
    text: Option<Seq<char>>,
    data: Option<Seq<u8>>,
) -> StateView {
    if table != "userinfo"@ || is_last_slot(text) {
        s
    } else {
        match decoded_user_info(index as u16, text, data) {
            Some(info) => {
                let players = with_player(s.players, info.entity_id);
                let i = slot_of(s.players, info.entity_id);
                StateView {
                    players: players.update(i, PlayerView { info: Some(info), ..players[i] }),
                    ..s
                }
            },
            None => s,
        }
    }
}

impl CheatAnalyserState {
    /// Applies an entry of a string table.
    pub fn apply_string_entry(
        &mut self,
        table: &str,
        index: usize,
        text: Option<&str>,
        data: Option<&Vec<u8>>,
    )
        ensures
            final(self)@ == string_entry_applied(
                old(self)@,
                table@,
                index,
                text_view(text),
                data_view(data),
            ),
    {
        if !same_text(table, "userinfo") {
            return ;
        }
        if let Some(t) = text {
            if let Some(slot) = parse_u32(t) {
                if slot == 0xFFFF_FFFFu32 {
                    return ;
                }
            }
        }
        if let Some(info) = decode_user_info(index as u16, text, data) {
            let ghost found = info@;
            let player = self.get_or_create_player(info.entity_id);
            let ghost before = player@;
            player.info = Some(info);
            assert(player@ == PlayerView { info: Some(found), ..before });
        }
    }
}

} // verus!
