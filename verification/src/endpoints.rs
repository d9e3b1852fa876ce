//! The addresses of the game service.

use vstd::prelude::*;
use vstd::string::StringExecFns;

verus! {

/// The page that shows the game `game_id`.
pub fn game_page_url(game_id: &str) -> (url: String)
    ensures
        url@ == "https://noflight.monad.fi/?id="@ + game_id@,
{
    let mut url = String::from_str("https://noflight.monad.fi/?id=");
    url.append(game_id);
    url
}

/// The address at which a game of the level `level_id` is created.
pub fn create_game_url(level_id: &str) -> (url: String)
    ensures
        url@ == "https://noflight.monad.fi/backend/api/levels/"@ + level_id@,
{
    let mut url = String::from_str("https://noflight.monad.fi/backend/api/levels/");
    url.append(level_id);
    url
}

/// The address of the duplex connection for the holder of `token`.
pub fn socket_url(token: &str) -> (url: String)
    ensures
        url@ == "wss://noflight.monad.fi/backend/"@ + token@ + "/"@,
{
    let mut url = String::from_str("wss://noflight.monad.fi/backend/");
    url.append(token);
    url.append("/");
    url
}

} // verus!
