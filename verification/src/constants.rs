//! The fixed values of the protocol and of the request handling around it.

use vstd::prelude::*;

verus! {

/// Difference between an Anno Domini year and the same year in the Buddhist era.
pub const AD_BE_YEAR_DIFFERENCE: u32 = 543;

/// Application name.
pub const APP_NAME: &'static str = "ger";

/// Length of the identifiers used as primary keys, session ids among them.
pub const ID_LENGTH: usize = 32;

/// Length of the identifiers used in the names of uploaded files.
pub const FILE_NAME_LENGTH: u8 = 48;

/// How long an access token is valid, in minutes.
pub const ACCESS_TOKEN_VALID_TIME_LENGTH: u32 = 15;

/// How long a refresh token is valid, in minutes.
pub const REFRESH_TOKEN_VALID_TIME_LENGTH: u32 = 60 * 24 * 7;

/// The name of the header that carries the access token.
pub const ACCESS_TOKEN_HEADER_NAME: &'static str = "x-access-token";

/// The name of the header that carries the refresh token.
pub const REFRESH_TOKEN_HEADER_NAME: &'static str = "x-refresh-token";

/// The audience that every token is minted for and checked against.
pub const JWT_TOKEN_AUDIENCE_NAME: &'static str = "ger.com";

/// The page that is served when a request names none, or one below the first.
pub const DEFAULT_PAGE: i32 = 1;

/// The page size that is used when a request names none, or one out of bounds.
pub const DEFAULT_PAGE_SIZE: i32 = 10;

/// The largest page size a request may ask for.
pub const MAX_PAGE_SIZE: i32 = 100;

/// The window, in hours, over which posts count as trending when a request names none.
pub const DEFAULT_TRENDING_WINDOW: i32 = 24;

} // verus!
