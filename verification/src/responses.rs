//! The bodies of the answers that are the same for many requests.

use vstd::prelude::*;

verus! {

/// What the server says of itself.
#[derive(Debug)]
pub struct GetServerInformationResponse {
    pub contributors: Vec<String>,
    pub contact: String,
}

impl Default for GetServerInformationResponse {
    fn default() -> (r: GetServerInformationResponse)
        ensures
            r.contributors@.len() == 1,
            r.contributors@[0]@ == "Bhattarpong Somwong"@,
            r.contact@ == "numbbutt34685@gmail.com"@,
    {
        let mut contributors: Vec<String> = Vec::new();
        contributors.push("Bhattarpong Somwong".to_string());
        GetServerInformationResponse {
            contributors,
            contact: "numbbutt34685@gmail.com".to_string(),
        }
    }
}

/// The answer to an operation that worked and has nothing else to say.
#[derive(Debug)]
pub struct DefaultSuccessResponse {
    pub message: String,
}

impl Default for DefaultSuccessResponse {
    fn default() -> (r: DefaultSuccessResponse)
        ensures
            r.message@ == "completed"@,
    {
        DefaultSuccessResponse { message: "completed".to_string() }
    }
}

impl DefaultSuccessResponse {
    /// An answer with the given message.
    pub fn new(message: String) -> (r: DefaultSuccessResponse)
        ensures
            r.message == message,
    {
        DefaultSuccessResponse { message }
    }
}

/// A category of the forum.
#[derive(Debug)]
pub struct GetCategoryResponseBody {
    pub id: String,
    pub name: String,
    pub representative_id: String,
    pub description: String,
    pub color_theme: String,
}

impl Default for GetCategoryResponseBody {
    /// A category to show what the answer looks like.
    fn default() -> (r: GetCategoryResponseBody)
        ensures
            r.id@ == "ND_XNQyNtAIUPGAf4kHES0MhfPmXwKrC"@,
            r.name@ == "Homeworks"@,
            r.representative_id@ == "homeworks"@,
            r.description@ == "Homework related questions."@,
            r.color_theme@ == "#223344"@,
    {
        GetCategoryResponseBody {
            id: "ND_XNQyNtAIUPGAf4kHES0MhfPmXwKrC".to_string(),
            name: "Homeworks".to_string(),
            representative_id: "homeworks".to_string(),
            description: "Homework related questions.".to_string(),
            color_theme: "#223344".to_string(),
        }
    }
}

/// A post of the forum. The content is HTML; the moment of creation is in seconds since
/// the Unix epoch.
#[derive(Debug)]
pub struct GetPostResponseBody {
    pub id: String,
    pub user_id: String,
    pub username: String,
    pub name: String,
    pub content: String,
    pub created_timestamp: i64,
    pub category_id: String,
    pub category_representative_id: String,
    pub view_count: i64,
    pub vote_count: i64,
}

impl Default for GetPostResponseBody {
    /// A post to show what the answer looks like.
    fn default() -> (r: GetPostResponseBody)
        ensures
            r.id@ == "xlKFXqgUNkeGUnVNZvqrrFD0TtVm3-EU"@,
            r.user_id@ == "4QMPeOBJnjdcl6tMPllRtWHZoisfj9nU"@,
            r.username@ == "grindarius"@,
            r.name@ == "How to surf the web"@,
            r.content@ == "<p>go on gooogle.com</p>"@,
            r.created_timestamp == 1_546_600_000,
            r.category_id@ == "EmYYiZHI_P2ZdyH34p_S3t5Lwq8eENJX"@,
            r.category_representative_id@ == "homework"@,
            r.view_count == 15,
            r.vote_count == 30,
    {
        GetPostResponseBody {
            id: "xlKFXqgUNkeGUnVNZvqrrFD0TtVm3-EU".to_string(),
            user_id: "4QMPeOBJnjdcl6tMPllRtWHZoisfj9nU".to_string(),
            username: "grindarius".to_string(),
            name: "How to surf the web".to_string(),
            content: "<p>go on gooogle.com</p>".to_string(),
            created_timestamp: 1_546_600_000,
            category_id: "EmYYiZHI_P2ZdyH34p_S3t5Lwq8eENJX".to_string(),
            category_representative_id: "homework".to_string(),
            view_count: 15,
            vote_count: 30,
        }
    }
}

} // verus!
