//! What requests carry besides their tokens, and the small rules by which it is read: pages
//! and page sizes, orders, and the body of a sign-in.

use vstd::prelude::*;

use crate::constants::{DEFAULT_PAGE, DEFAULT_PAGE_SIZE, DEFAULT_TRENDING_WINDOW, MAX_PAGE_SIZE};
use crate::database::Role;
use crate::errors::HttpError;
use crate::extractors::{spec_validate, validate_tokens_at, Verdict};
use crate::token::TokenCodec;

verus! {

/// The two token headers of a request.
#[derive(Debug)]
pub struct AuthenticationHeaders {
    /// The access token of the user.
    pub x_access_token: String,
    /// The refresh token of the user.
    pub x_refresh_token: String,
}

impl AuthenticationHeaders {
    /// Decides at `now` on the request that carries these headers.
    pub fn validate(&self, codec: &TokenCodec, now: i64) -> (r: Verdict)
        ensures
            r@ == spec_validate(
                codec@,
                Some(self.x_access_token@),
                Some(self.x_refresh_token@),
                now as int,
            ),
    {
        validate_tokens_at(
            codec,
            Some(self.x_access_token.as_str()),
            Some(self.x_refresh_token.as_str()),
            now,
        )
    }
}

/// The part of a table that a query reads: how many rows, after how many.
#[derive(Clone, Copy, Debug, PartialEq, Eq, Structural)]
pub struct SqlRange {
    pub limit: i32,
    pub offset: i32,
}

impl SqlRange {
    /// The range of a page: as many rows as the page is long, after all the pages before it.
    /// There is none where the page or the page size is not positive, or where the offset
    /// does not fit.
    pub open spec fn spec_from_page(page: int, page_size: int) -> Option<SqlRange> {
        if page <= 0 || page_size <= 0 || (page - 1) * page_size > i32::MAX {
            None
        } else {
            Some(SqlRange { limit: page_size as i32, offset: ((page - 1) * page_size) as i32 })
        }
    }

    /// The limit and the offset with which a page of the given size is read.
    pub fn from_page(page: i32, page_size: i32) -> (r: Result<SqlRange, HttpError>)
        ensures
            match r {
                Ok(range) => Self::spec_from_page(page as int, page_size as int) == Some(range),
                Err(e) => Self::spec_from_page(page as int, page_size as int) is None
                    && e is InputValidationError,
            },
    {
        if page <= 0 || page_size <= 0 {
            return Err(HttpError::InputValidationError);
        }
        assert(0 <= (page - 1) * page_size <= 0x7fff_ffff * 0x7fff_ffff) by (nonlinear_arith)
            requires
                1 <= page <= 0x7fff_ffff,
                1 <= page_size <= 0x7fff_ffff,
        ;
        let offset: i64 = (page as i64 - 1) * (page_size as i64);
        if offset > i32::MAX as i64 {
            return Err(HttpError::InputValidationError);
        }
        Ok(SqlRange { limit: page_size, offset: offset as i32 })
    }
}

/// The page that a request means by the number it gives: the number itself, or the first
/// page where the number is not positive.
pub open spec fn spec_page(number: i32) -> i32 {
    if number <= 0 {
        DEFAULT_PAGE
    } else {
        number
    }
}

/// The page size that a request means by the number it gives: the number itself, or the
/// default where the number is not positive or above the maximum.
pub open spec fn spec_page_size(number: i32) -> i32 {
    if number <= 0 || number > MAX_PAGE_SIZE {
        DEFAULT_PAGE_SIZE
    } else {
        number
    }
}

/// Reads the `page` of a query.
pub fn deserialize_page(number: i32) -> (r: Option<i32>)
    ensures
        r == Some(spec_page(number)),
{
    if number <= 0 {
        return Some(DEFAULT_PAGE);
    }
    Some(number)
}

/// Reads the `page_size` of a query.
pub fn deserialize_page_size(number: i32) -> (r: Option<i32>)
    ensures
        r == Some(spec_page_size(number)),
{
    if number <= 0 || number > MAX_PAGE_SIZE {
        return Some(DEFAULT_PAGE_SIZE);
    }
    Some(number)
}

/// Reads a text of a query that may be left empty: an empty text is no text.
pub fn empty_string_as_none(text: Option<String>) -> (r: Option<String>)
    ensures
        match text {
            Some(t) => if t@.len() == 0 {
                r is None
            } else {
                r == Some(t)
            },
            None => r is None,
        },
{
    match text {
        Some(t) => if t.as_str().is_empty() {
            None
        } else {
            Some(t)
        },
        None => None,
    }
}

/// The range that a query with these pages reads.
pub open spec fn spec_page_range(page: Option<i32>, page_size: Option<i32>) -> Option<SqlRange> {
    SqlRange::spec_from_page(
        match page {
            Some(p) => p as int,
            None => DEFAULT_PAGE as int,
        },
        match page_size {
            Some(s) => s as int,
            None => DEFAULT_PAGE_SIZE as int,
        },
    )
}

/// The range that a query reads which may name a page and a page size: where it names none,
/// the defaults stand in.
pub fn page_range(page: Option<i32>, page_size: Option<i32>) -> (r: Result<SqlRange, HttpError>)
    ensures
        match r {
            Ok(range) => spec_page_range(page, page_size) == Some(range),
            Err(e) => spec_page_range(page, page_size) is None && e is InputValidationError,
        },
{
    let page = match page {
        Some(p) => p,
        None => DEFAULT_PAGE,
    };
    let page_size = match page_size {
        Some(s) => s,
        None => DEFAULT_PAGE_SIZE,
    };
    SqlRange::from_page(page, page_size)
}

/// In which order a list is given.
#[derive(Clone, Copy, Debug, PartialEq, Eq, Structural)]
pub enum Order {
    /// Least to most.
    Asc,
    /// Most to least.
    Desc,
}

impl Order {
    /// The word for the order in a request and in a query.
    pub open spec fn spec_name(self) -> Seq<char> {
        match self {
            Order::Asc => "asc"@,
            Order::Desc => "desc"@,
        }
    }

    /// The word for the order in a request and in a query.
    pub fn name(&self) -> (r: &'static str)
        ensures
            r@ == self.spec_name(),
    {
        match self {
            Order::Asc => "asc",
            Order::Desc => "desc",
        }
    }

    /// The order that a request means which may name one: ascending where it names none.
    pub fn or_default(order: Option<Order>) -> (r: Order)
        ensures
            r == match order {
                Some(o) => o,
                None => Order::Asc,
            },
    {
        match order {
            Some(o) => o,
            None => Order::Asc,
        }
    }
}

impl Default for Order {
    fn default() -> (r: Order)
        ensures
            r == Order::Asc,
    {
        Order::Asc
    }
}

/// By what a list of posts is sorted.
#[derive(Clone, Copy, Debug, PartialEq, Eq, Structural)]
pub enum GetPostListRequestQueriesOrderBy {
    /// By the latest activity.
    LatestActivity,
    /// By the number of votes.
    Vote,
    /// By the time of creation.
    Time,
    /// By the number of views.
    View,
}

impl GetPostListRequestQueriesOrderBy {
    /// The column that the list is sorted by.
    pub open spec fn spec_column(self) -> Seq<char> {
        match self {
            GetPostListRequestQueriesOrderBy::Time => "forum_posts.forum_post_created_timestamp"@,
            GetPostListRequestQueriesOrderBy::LatestActivity => {
                "forum_posts.forum_post_last_active_timestamp"@
            },
            GetPostListRequestQueriesOrderBy::Vote => "vote_count"@,
            GetPostListRequestQueriesOrderBy::View => "view_count"@,
        }
    }

    /// The column that the list is sorted by.
    pub fn column(&self) -> (r: &'static str)
        ensures
            r@ == self.spec_column(),
    {
        match self {
            GetPostListRequestQueriesOrderBy::Time => "forum_posts.forum_post_created_timestamp",
            GetPostListRequestQueriesOrderBy::LatestActivity => {
                "forum_posts.forum_post_last_active_timestamp"
            },
            GetPostListRequestQueriesOrderBy::Vote => "vote_count",
            GetPostListRequestQueriesOrderBy::View => "view_count",
        }
    }
}

impl Default for GetPostListRequestQueriesOrderBy {
    fn default() -> (r: GetPostListRequestQueriesOrderBy)
        ensures
            r == GetPostListRequestQueriesOrderBy::LatestActivity,
    {
        GetPostListRequestQueriesOrderBy::LatestActivity
    }
}

/// By what the replies to a post are sorted.
#[derive(Clone, Copy, Debug, PartialEq, Eq, Structural)]
pub enum GetPostRepliesRequestQueriesOrderBy {
    /// By the time of creation.
    Time,
    /// By the number of votes.
    Vote,
}

impl GetPostRepliesRequestQueriesOrderBy {
    /// The column that the replies are sorted by.
    pub open spec fn spec_column(self) -> Seq<char> {
        match self {
            GetPostRepliesRequestQueriesOrderBy::Time => {
                "forum_post_replies.forum_post_reply_created_timestamp"@
            },
            GetPostRepliesRequestQueriesOrderBy::Vote => "vote_count"@,
        }
    }

    /// The column that the replies are sorted by.
    pub fn column(&self) -> (r: &'static str)
        ensures
            r@ == self.spec_column(),
    {
        match self {
            GetPostRepliesRequestQueriesOrderBy::Time => {
                "forum_post_replies.forum_post_reply_created_timestamp"
            },
            GetPostRepliesRequestQueriesOrderBy::Vote => "vote_count",
        }
    }
}

impl Default for GetPostRepliesRequestQueriesOrderBy {
    fn default() -> (r: GetPostRepliesRequestQueriesOrderBy)
        ensures
            r == GetPostRepliesRequestQueriesOrderBy::Time,
    {
        GetPostRepliesRequestQueriesOrderBy::Time
    }
}

/// The query of a request for the list of users.
#[derive(Debug)]
pub struct GetUsersListRequestQueries {
    pub page: Option<i32>,
    pub page_size: Option<i32>,
}

impl GetUsersListRequestQueries {
    /// The range that the query reads.
    pub fn range(&self) -> (r: Result<SqlRange, HttpError>)
        ensures
            match r {
                Ok(range) => spec_page_range(self.page, self.page_size) == Some(range),
                Err(e) => spec_page_range(self.page, self.page_size) is None
                    && e is InputValidationError,
            },
    {
        page_range(self.page, self.page_size)
    }
}

/// The query of a request for the list of categories.
#[derive(Debug)]
pub struct GetCategoriesListRequestQueries {
    pub page: Option<i32>,
    pub page_size: Option<i32>,
}

impl GetCategoriesListRequestQueries {
    /// The range that the query reads.
    pub fn range(&self) -> (r: Result<SqlRange, HttpError>)
        ensures
            match r {
                Ok(range) => spec_page_range(self.page, self.page_size) == Some(range),
                Err(e) => spec_page_range(self.page, self.page_size) is None
                    && e is InputValidationError,
            },
    {
        page_range(self.page, self.page_size)
    }
}

/// The query of a request for the list of announcements.
#[derive(Debug)]
pub struct GetAnnouncementsListRequestQueries {
    /// The page to read. The first where none is named.
    pub page: Option<i32>,
    /// The size of the page. Ten where none is named.
    pub page_size: Option<i32>,
}

impl GetAnnouncementsListRequestQueries {
    /// The range that the query reads.
    pub fn range(&self) -> (r: Result<SqlRange, HttpError>)
        ensures
            match r {
                Ok(range) => spec_page_range(self.page, self.page_size) == Some(range),
                Err(e) => spec_page_range(self.page, self.page_size) is None
                    && e is InputValidationError,
            },
    {
        page_range(self.page, self.page_size)
    }
}

/// The query of a request for the posts that are trending.
#[derive(Debug)]
pub struct GetTrendingPostsListRequestQueries {
    /// Over how many hours posts count as trending.
    pub hours: Option<i32>,
    /// The page to read.
    pub page: Option<i32>,
    /// The size of the page.
    pub page_size: Option<i32>,
}

impl GetTrendingPostsListRequestQueries {
    /// The range that the query reads.
    pub fn range(&self) -> (r: Result<SqlRange, HttpError>)
        ensures
            match r {
                Ok(range) => spec_page_range(self.page, self.page_size) == Some(range),
                Err(e) => spec_page_range(self.page, self.page_size) is None
                    && e is InputValidationError,
            },
    {
        page_range(self.page, self.page_size)
    }

    /// The window in hours: a day where the query names none.
    pub fn window(&self) -> (r: i32)
        ensures
            r == match self.hours {
                Some(h) => h,
                None => DEFAULT_TRENDING_WINDOW,
            },
    {
        match self.hours {
            Some(h) => h,
            None => DEFAULT_TRENDING_WINDOW,
        }
    }
}

/// The query of a request for a list of posts.
#[derive(Debug)]
pub struct GetPostListRequestQueries {
    /// Whether global announcements are asked for.
    pub announcement: Option<bool>,
    /// Whether the announcements of a category are asked for.
    pub category_based_announcement: Option<bool>,
    /// By what the list is sorted.
    pub by: Option<GetPostListRequestQueriesOrderBy>,
    /// In which order the list is given.
    pub order: Option<Order>,
    /// The category whose posts are asked for.
    pub category_representative_id: Option<String>,
    /// Whether active or inactive posts are asked for; both where nothing is said.
    pub active: Option<bool>,
    /// The page to read.
    pub page: Option<i32>,
    /// The size of the page.
    pub page_size: Option<i32>,
}

impl GetPostListRequestQueries {
    /// The range that the query reads.
    pub fn range(&self) -> (r: Result<SqlRange, HttpError>)
        ensures
            match r {
                Ok(range) => spec_page_range(self.page, self.page_size) == Some(range),
                Err(e) => spec_page_range(self.page, self.page_size) is None
                    && e is InputValidationError,
            },
    {
        page_range(self.page, self.page_size)
    }

    /// The two conditions that the query adds to the `where` clause: one on the category,
    /// if it names one, and one on whether the posts are active, if it says so. Each is
    /// empty where the query is silent.
    pub fn filters(&self) -> (r: (&'static str, &'static str))
        ensures
            r.0@ == match self.category_representative_id {
                Some(_) => "and forum_categories.forum_category_representative_id = $5"@,
                None => ""@,
            },
            r.1@ == match self.active {
                Some(_) => "and forum_posts.forum_post_is_active = $6"@,
                None => ""@,
            },
    {
        (
            match self.category_representative_id {
                Some(_) => "and forum_categories.forum_category_representative_id = $5",
                None => "",
            },
            match self.active {
                Some(_) => "and forum_posts.forum_post_is_active = $6",
                None => "",
            },
        )
    }

    /// Whether global announcements, and whether the announcements of a category, are asked
    /// for: not, where the query is silent.
    pub fn announcements(&self) -> (r: (bool, bool))
        ensures
            r.0 == (self.announcement == Some(true)),
            r.1 == (self.category_based_announcement == Some(true)),
    {
        (
            match self.announcement {
                Some(wanted) => wanted,
                None => false,
            },
            match self.category_based_announcement {
                Some(wanted) => wanted,
                None => false,
            },
        )
    }

    /// The column and the word of the `order by` clause.
    pub fn ordering(&self) -> (r: (&'static str, &'static str))
        ensures
            r.0@ == match self.by {
                Some(by) => by.spec_column(),
                None => GetPostListRequestQueriesOrderBy::LatestActivity.spec_column(),
            },
            r.1@ == match self.order {
                Some(order) => order.spec_name(),
                None => Order::Asc.spec_name(),
            },
    {
        let by = match self.by {
            Some(by) => by,
            None => GetPostListRequestQueriesOrderBy::LatestActivity,
        };
        (by.column(), Order::or_default(self.order).name())
    }
}

/// The query of a request for the replies to a post.
#[derive(Debug)]
pub struct GetPostRepliesRequestQueries {
    /// The page to read.
    pub page: Option<i32>,
    /// The size of the page.
    pub page_size: Option<i32>,
    /// By what the replies are sorted.
    pub by: Option<GetPostRepliesRequestQueriesOrderBy>,
    /// In which order the replies are given.
    pub order: Option<Order>,
}

impl GetPostRepliesRequestQueries {
    /// The range that the query reads.
    pub fn range(&self) -> (r: Result<SqlRange, HttpError>)
        ensures
            match r {
                Ok(range) => spec_page_range(self.page, self.page_size) == Some(range),
                Err(e) => spec_page_range(self.page, self.page_size) is None
                    && e is InputValidationError,
            },
    {
        page_range(self.page, self.page_size)
    }

    /// The column and the word of the `order by` clause.
    pub fn ordering(&self) -> (r: (&'static str, &'static str))
        ensures
            r.0@ == match self.by {
                Some(by) => by.spec_column(),
                None => GetPostRepliesRequestQueriesOrderBy::Time.spec_column(),
            },
            r.1@ == match self.order {
                Some(order) => order.spec_name(),
                None => Order::Asc.spec_name(),
            },
    {
        let by = match self.by {
            Some(by) => by,
            None => GetPostRepliesRequestQueriesOrderBy::Time,
        };
        (by.column(), Order::or_default(self.order).name())
    }
}

/// The parameters of a request for a post.
#[derive(Debug)]
pub struct GetPostRequestParams {
    pub post_id: String,
}

/// The parameters of a request for the replies to a post.
#[derive(Debug)]
pub struct GetPostRepliesRequestParams {
    pub post_id: String,
}

/// The parameters of a request for a category.
#[derive(Debug)]
pub struct GetCategoryRequestParams {
    pub category_representative_id: String,
}

/// The body of a sign-in request.
#[derive(Debug)]
pub struct SigninRequestBody {
    pub username: String,
    pub password: String,
}

impl SigninRequestBody {
    /// A sign-in names a user and gives a password: neither may be empty.
    pub fn validate(&self) -> (r: Result<(), HttpError>)
        ensures
            match r {
                Ok(_) => self.username@.len() > 0 && self.password@.len() > 0,
                Err(e) => e is InputValidationError && (self.username@.len() == 0
                    || self.password@.len() == 0),
            },
    {
        if self.username.as_str().is_empty() || self.password.as_str().is_empty() {
            Err(HttpError::InputValidationError)
        } else {
            Ok(())
        }
    }
}

/// What a sign-in makes of the search for its user: the user that was found, or the error
/// that says there is no such user.
pub fn user_found(user: Option<UserQuery>) -> (r: Result<UserQuery, HttpError>)
    ensures
        match user {
            Some(found) => r == Ok::<UserQuery, HttpError>(found),
            None => r matches Err(e) && e is UserNotFound,
        },
{
    match user {
        Some(found) => Ok(found),
        None => Err(HttpError::UserNotFound),
    }
}

/// Whether an account may be created: it needs a name, a mail address and a password, none
/// of them empty, and no account may have the name or the address already.
pub open spec fn spec_signup_allowed(
    username: Seq<char>,
    email: Seq<char>,
    password: Seq<char>,
    taken: nat,
) -> bool {
    username.len() > 0 && email.len() > 0 && password.len() > 0 && taken == 0
}

/// Decides whether an account is created, given how many accounts have the name or the
/// mail address already.
pub fn check_signup(username: &str, email: &str, password: &str, taken: usize) -> (r: Result<
    (),
    HttpError,
>)
    ensures
        match r {
            Ok(_) => spec_signup_allowed(username@, email@, password@, taken as nat),
            Err(e) => e is InputValidationError && !spec_signup_allowed(
                username@,
                email@,
                password@,
                taken as nat,
            ),
        },
{
    if username.is_empty() || email.is_empty() || password.is_empty() || taken > 0 {
        Err(HttpError::InputValidationError)
    } else {
        Ok(())
    }
}

/// What the user table holds of the user who signs in.
#[derive(Debug)]
pub struct UserQuery {
    pub user_id: String,
    pub user_password: String,
    pub user_role: Role,
}

} // verus!
