//! How the player is identified to the game.

use vstd::prelude::*;

verus! {

/// The closed set of authentication strategies; one is active per launch.
/// Further variants are kept for online identity providers.
#[derive(Debug, PartialEq, Eq)]
pub enum AuthMethod {
    /// A local identity: a display name chosen by the player, and a unique id
    /// where the player has one. Nothing is verified remotely.
    Offline { player_name: String, uuid: Option<String> },
}

/// The mathematical value of an [`AuthMethod`].
pub enum AuthMethodView {
    Offline { player_name: Seq<char>, uuid: Option<Seq<char>> },
}

impl View for AuthMethod {
    type V = AuthMethodView;

    open spec fn view(&self) -> AuthMethodView {
        match self {
            AuthMethod::Offline { player_name, uuid } => AuthMethodView::Offline {
                player_name: player_name@,
                uuid: match uuid {
                    Some(uuid) => Some(uuid@),
                    None => None,
                },
            },
        }
    }
}

impl AuthMethod {
    /// The offline identity of `player_name`, without a unique id.
    pub fn offline(player_name: String) -> (auth: Self)
        ensures
            auth@ == (AuthMethodView::Offline { player_name: player_name@, uuid: None }),
    {
        AuthMethod::Offline { player_name, uuid: None }
    }

    /// The name under which the player appears in the game.
    pub fn player_name(&self) -> (name: &String)
        ensures
            name@ == (match self@ {
                AuthMethodView::Offline { player_name, .. } => player_name,
            }),
    {
        match self {
            AuthMethod::Offline { player_name, .. } => player_name,
        }
    }
}

impl Clone for AuthMethod {
    fn clone(&self) -> (copy: Self)
        ensures
            copy@ == self@,
    {
        match self {
            AuthMethod::Offline { player_name, uuid } => AuthMethod::Offline {
                player_name: player_name.clone(),
                uuid: match uuid {
                    Some(uuid) => Some(uuid.clone()),
                    None => None,
                },
            },
        }
    }
}

} // verus!
