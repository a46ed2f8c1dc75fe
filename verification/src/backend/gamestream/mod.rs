//! GameStream hosts: Sunshine and those compatible with it.
use vstd::prelude::*;

use crate::backend::{BackendCaps, HostBackend};
use crate::discovery::{
    before_first, label_and_addr, record_addr, DiscoveredHost, DiscoveredView, ServiceRecord,
};
use crate::library::{Artwork, ArtworkView, GameEntry, GameView, LibraryError};
use crate::model::protocol::Protocol;
use crate::seqs::views;
use crate::text::{
    decimal, decimal_string, law_decimal_reads_back, law_decimal_unique, parse_number,
    parse_unsigned, quoted, quoted_of,
};

pub mod http;
pub mod identity;
pub mod input;
pub mod query;
pub mod stream;

verus! {

broadcast use crate::seqs::group_views;

/// The service type that the hosts announce. Its port is the one for plain HTTP.
pub const SERVICE_TYPE: &'static str = "_nvstream._tcp.local.";

/// The port for plain HTTP queries.
pub const DEFAULT_HTTP_PORT: u16 = 47989;

/// GameStream hosts.
#[derive(Clone, Copy, Debug, PartialEq, Eq, Structural)]
pub struct GameStream;

impl HostBackend for GameStream {
    open spec fn speaks(&self) -> Protocol {
        Protocol::GameStream
    }

    open spec fn offers(&self) -> BackendCaps {
        BackendCaps { speed_test: false, request_access: false, unpair: true, quit_app: true }
    }

    open spec fn service(&self) -> Seq<char> {
        SERVICE_TYPE@
    }

    open spec fn query_port(&self) -> u16 {
        DEFAULT_HTTP_PORT
    }

    /// Queries go to the announced port too, and no Wake-on-LAN address is announced.
    open spec fn announced(&self, record: ServiceRecord) -> Option<DiscoveredView> {
        match record_addr(record) {
            None => None,
            Some(addr) => Some(
                DiscoveredView {
                    name: before_first(record.fullname@, '.'),
                    addr,
                    port: record.port,
                    protocol: Protocol::GameStream,
                    mgmt_port: Some(record.port),
                    mac: seq![],
                },
            ),
        }
    }

    fn protocol(&self) -> (r: Protocol) {
        Protocol::GameStream
    }

    fn caps(&self) -> (r: BackendCaps) {
        BackendCaps { speed_test: false, request_access: false, unpair: true, quit_app: true }
    }

    fn discovery_service(&self) -> (r: &'static str) {
        SERVICE_TYPE
    }

    fn default_query_port(&self) -> (r: u16) {
        DEFAULT_HTTP_PORT
    }

    fn parse_discovery(&self, record: &ServiceRecord) -> (r: Option<DiscoveredHost>) {
        match label_and_addr(record) {
            None => None,
            Some((name, addr)) => {
                let mac: Vec<String> = Vec::new();
                Some(
                    DiscoveredHost {
                        name,
                        addr,
                        port: record.port,
                        protocol: Protocol::GameStream,
                        mgmt_port: Some(record.port),
                        mac,
                    },
                )
            },
        }
    }
}

/// One entry of a host's app list.
#[derive(Debug)]
pub struct HostApp {
    pub id: u32,
    pub title: String,
}

/// The title that an app stands for: its id, in decimal, is also the name of its cover.
pub open spec fn game_of(app: HostApp) -> GameView {
    GameView {
        id: decimal(app.id as nat),
        title: app.title@,
        art: ArtworkView {
            portrait: Some(decimal(app.id as nat)),
            hero: None,
            logo: None,
            header: None,
        },
    }
}

/// The titles that a list of apps stands for.
pub open spec fn games_of(apps: Seq<HostApp>) -> Seq<GameView> {
    Seq::new(apps.len(), |i: int| game_of(apps[i]))
}

/// What opening a host says of its library: a host that could not be opened cannot be reached, and
/// one that does not say that this device is paired is taken not to have it on its list.
pub fn open(opened: Result<Option<bool>, String>) -> (r: Result<(), LibraryError>)
    ensures
        r == (match opened {
            Err(why) => Err(LibraryError::Unreachable(why)),
            Ok(Some(true)) => Ok(()),
            Ok(_) => Err(LibraryError::NotPaired),
        }),
{
    match opened {
        Err(why) => Err(LibraryError::Unreachable(why)),
        Ok(Some(true)) => Ok(()),
        Ok(_) => Err(LibraryError::NotPaired),
    }
}

/// The library that a host's app list comes to.
pub fn list_games(apps: Result<Vec<HostApp>, String>) -> (r: Result<Vec<GameEntry>, LibraryError>)
    ensures
        match apps {
            Err(why) => r == Err::<Vec<GameEntry>, LibraryError>(LibraryError::Unreachable(why)),
            Ok(list) => r matches Ok(games) && views(games@) == games_of(list@),
        },
{
    let list = match apps {
        Err(why) => {
            return Err(LibraryError::Unreachable(why));
        },
        Ok(list) => list,
    };
    let mut games: Vec<GameEntry> = Vec::new();
    let mut i: usize = 0;
    assert(views(games@) =~= games_of(list@.take(0)));
    while i < list.len()
        invariant
            i <= list.len(),
            views(games@) == games_of(list@.take(i as int)),
        decreases list.len() - i,
    {
        let app = &list[i];
        games.push(
            GameEntry {
                id: decimal_string(app.id as u64),
                title: app.title.clone(),
                art: Artwork {
                    portrait: Some(decimal_string(app.id as u64)),
                    hero: None,
                    logo: None,
                    header: None,
                },
            },
        );
        proof {
            assert(views(games@) =~= games_of(list@.take(i + 1)));
        }
        i += 1;
    }
    assert(list@.take(list.len() as int) =~= list@);
    Ok(games)
}

pub const BAD_APP_ID: &'static str = "bad GameStream app id ";

/// The app whose cover is wanted. Anything but a number is no app.
pub fn art_app(art: &str) -> (r: Result<u32, LibraryError>)
    ensures
        match r {
            Ok(id) => parse_unsigned(art@, u32::MAX as nat) == Some(id as nat),
            Err(e) => parse_unsigned(art@, u32::MAX as nat) is None && (e matches LibraryError::Unreachable(
                why,
            ) && why@ == BAD_APP_ID@ + quoted_of(art@)),
        },
{
    match parse_number(art, u32::MAX as u64) {
        Some(id) => Ok(id as u32),
        None => {
            let mut why = BAD_APP_ID.to_owned();
            let shown = quoted(art);
            why.append(shown.as_str());
            Err(LibraryError::Unreachable(why))
        },
    }
}

/// The cover of every listed title can be asked for, under the id that the host gave it.
pub proof fn law_listed_cover_found(app: HostApp)
    ensures
        game_of(app).art.portrait matches Some(art) && parse_unsigned(art, u32::MAX as nat) == Some(
            app.id as nat,
        ),
{
    law_decimal_reads_back(app.id as nat, u32::MAX as nat);
}

/// Different apps of a host are different titles.
pub proof fn law_titles_distinct(a: HostApp, b: HostApp)
    requires
        a.id != b.id,
    ensures
        game_of(a).id != game_of(b).id,
{
    if game_of(a).id == game_of(b).id {
        law_decimal_unique(a.id as nat, b.id as nat);
    }
}

/// A host's apps are its titles, in its order and under its own names, each with its id for a
/// cover and no other art.
pub proof fn law_apps_are_titles(apps: Seq<HostApp>, i: int)
    requires
        0 <= i < apps.len(),
    ensures
        games_of(apps).len() == apps.len(),
        games_of(apps)[i].title == apps[i].title@,
        games_of(apps)[i].id == decimal(apps[i].id as nat),
        games_of(apps)[i].art.portrait == Some(games_of(apps)[i].id),
        games_of(apps)[i].art.hero is None,
        games_of(apps)[i].art.logo is None,
        games_of(apps)[i].art.header is None,
{
}

} // verus!
