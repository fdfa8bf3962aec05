//! Answers to server status requests: the player counts, a sample of the players, the
//! message of the day and the icon.

use vstd::prelude::*;
use crate::data::colour::Rgb;
use crate::data::text::{
    Text, TextComponent, TextContent, TextStyle, ComponentModel, ContentModel, StyleModel,
    empty_style_model, component_model,
};

verus! {

/// The plugin that answers status requests by itself.
pub struct AutoStatusPlugin {
    /// The maximum number of players shown.
    pub max_players: u32,
    /// The message of the day.
    pub motd: Text,
    /// The icon, as a data URL; empty for none.
    pub favicon: String,
}

/// The default message of the day: "A Minecraft Server" in grey.
pub open spec fn default_motd_model() -> Seq<ComponentModel> {
    seq![
        ComponentModel {
            content: ContentModel::Literal("A Minecraft Server"@),
            style: StyleModel { colour: Rgb { r: 170, g: 170, b: 170 }, ..empty_style_model() },
        },
    ]
}

impl Default for AutoStatusPlugin {
    /// Twenty players at most, the default message of the day, and no icon.
    fn default() -> (r: Self)
        ensures
            r.max_players == 20,
            r.motd@ == default_motd_model(),
            r.favicon@ == Seq::<char>::empty(),
    {
        let mut style = TextStyle::empty();
        style.colour = Rgb::grey();
        let c = TextComponent {
            content: TextContent::Literal { text: "A Minecraft Server".to_owned() },
            style,
        };
        assert(component_model(c) == default_motd_model()[0]);
        AutoStatusPlugin { max_players: 20, motd: Text::from_component(c), favicon: String::new() }
    }
}

/// A logged-in player as the status sees it: its UUID, its name, and whether it allows
/// being listed, where its client said.
pub struct StatusCandidate {
    pub uuid: u128,
    pub name: String,
    pub allow_listing: Option<bool>,
}

/// A player listed in the status.
pub struct StatusPlayer {
    pub uuid: u128,
    pub name: String,
}

/// The player counts and sample of a status.
pub struct StatusPlayers {
    pub current: u32,
    pub max: u32,
    pub sample: Vec<StatusPlayer>,
}

impl View for StatusCandidate {
    type V = (u128, Seq<char>, Option<bool>);

    open spec fn view(&self) -> (u128, Seq<char>, Option<bool>) {
        (self.uuid, self.name@, self.allow_listing)
    }
}

impl View for StatusPlayer {
    type V = (u128, Seq<char>);

    open spec fn view(&self) -> (u128, Seq<char>) {
        (self.uuid, self.name@)
    }
}

/// The players listed: in order, those whose client said it allows being listed.
pub open spec fn listed_players(c: Seq<StatusCandidate>) -> Seq<(u128, Seq<char>)>
    decreases c.len(),
{
    if c.len() == 0 {
        Seq::empty()
    } else {
        let before = listed_players(c.drop_last());
        if c.last().allow_listing == Option::Some(true) {
            before.push((c.last().uuid, c.last().name@))
        } else {
            before
        }
    }
}

/// The player counts and sample: every candidate counts, the count truncated to 32 bits.
pub fn status_players(max: u32, candidates: &Vec<StatusCandidate>) -> (r: StatusPlayers)
    ensures
        r.current == candidates@.len() as u32,
        r.max == max,
        r.sample@.map_values(|p: StatusPlayer| p@) == listed_players(candidates@),
{
    let mut sample: Vec<StatusPlayer> = Vec::new();
    let n = candidates.len();
    let mut i: usize = 0;
    while i < n
        invariant
            i <= n,
            n == candidates@.len(),
            sample@.map_values(|p: StatusPlayer| p@) == listed_players(candidates@.take(i as int)),
        decreases n - i,
    {
        let c = &candidates[i];
        let ghost prefix = candidates@.take(i as int);
        assert(candidates@.take(i + 1).drop_last() =~= prefix);
        let listed = match c.allow_listing {
            Some(b) => b,
            None => false,
        };
        if listed {
            let ghost before = sample@;
            sample.push(StatusPlayer { uuid: c.uuid, name: c.name.clone() });
            assert(sample@.map_values(|p: StatusPlayer| p@) =~= before.map_values(|p: StatusPlayer| p@).push(
                (c.uuid, c.name@),
            ));
        }
        i += 1;
    }
    assert(candidates@.take(n as int) =~= candidates@);
    StatusPlayers { current: n as u32, max, sample }
}

/// The answer to a status request.
pub struct StatusResponse {
    pub version_name: String,
    pub protocol: u32,
    pub players: StatusPlayers,
    pub motd: Text,
    pub favicon: String,
    pub requires_chat_signing: bool,
    pub prevents_chat_reports: bool,
}

/// The answer the plugin gives: the version given, the counts and sample of the
/// candidates against the plugin's maximum, its message of the day and icon; chat
/// signing is not required and chat reports are prevented.
pub fn status_response(
    plugin: &AutoStatusPlugin,
    version_name: String,
    protocol: u32,
    candidates: &Vec<StatusCandidate>,
) -> (r: StatusResponse)
    ensures
        r.version_name@ == version_name@,
        r.protocol == protocol,
        r.players.current == candidates@.len() as u32,
        r.players.max == plugin.max_players,
        r.players.sample@.map_values(|p: StatusPlayer| p@) == listed_players(candidates@),
        r.motd@ == plugin.motd@,
        r.favicon@ == plugin.favicon@,
        !r.requires_chat_signing,
        r.prevents_chat_reports,
{
    StatusResponse {
        version_name,
        protocol,
        players: status_players(plugin.max_players, candidates),
        motd: plugin.motd.clone(),
        favicon: plugin.favicon.clone(),
        requires_chat_signing: false,
        prevents_chat_reports: true,
    }
}

} // verus!
