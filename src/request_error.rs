use vstd::prelude::*;
use vstd::string::StringExecFns;

verus! {

/// A failed request. Each kind maps to its own HTTP status.
#[derive(Debug, PartialEq, Eq)]
pub enum RequestError {
    /// No key, or a key that belongs to no tier of the game.
    Unauthorized,
    /// A valid key whose tier is below the one the operation needs.
    Forbidden,
    InvalidGameName { game_name: String },
    GameAlreadyExists { game_name: String },
    NoSuchGame { game_name: String },
}

pub type RequestResult<T> = Result<T, RequestError>;

/// What a `RequestError` says, with the game name as a sequence of characters.
pub enum ErrorView {
    Unauthorized,
    Forbidden,
    InvalidGameName(Seq<char>),
    GameAlreadyExists(Seq<char>),
    NoSuchGame(Seq<char>),
}

impl View for RequestError {
    type V = ErrorView;

    open spec fn view(&self) -> ErrorView {
        match self {
            RequestError::Unauthorized => ErrorView::Unauthorized,
            RequestError::Forbidden => ErrorView::Forbidden,
            RequestError::InvalidGameName { game_name } => ErrorView::InvalidGameName(game_name@),
            RequestError::GameAlreadyExists { game_name } => ErrorView::GameAlreadyExists(
                game_name@,
            ),
            RequestError::NoSuchGame { game_name } => ErrorView::NoSuchGame(game_name@),
        }
    }
}

/// A request result with its error replaced by the error's view.
pub open spec fn result_view<T>(r: RequestResult<T>) -> Result<T, ErrorView> {
    match r {
        Ok(v) => Ok(v),
        Err(e) => Err(e@),
    }
}

pub open spec fn status_of(e: ErrorView) -> u16 {
    match e {
        ErrorView::Unauthorized => 401,
        ErrorView::Forbidden => 403,
        ErrorView::InvalidGameName(_) => 400,
        ErrorView::GameAlreadyExists(_) => 409,
        ErrorView::NoSuchGame(_) => 404,
    }
}

impl RequestError {
    /// The HTTP status code that reports this error.
    pub fn status(&self) -> (r: u16)
        ensures
            r == status_of(self@),
    {
        match self {
            RequestError::Unauthorized => 401,
            RequestError::Forbidden => 403,
            RequestError::InvalidGameName { .. } => 400,
            RequestError::GameAlreadyExists { .. } => 409,
            RequestError::NoSuchGame { .. } => 404,
        }
    }

    /// The human-readable text of the error.
    pub fn message(&self) -> (r: String)
        ensures
            r@ == message_of(self@),
    {
        match self {
            RequestError::Unauthorized => String::from_str("unathorized request"),
            RequestError::Forbidden => String::from_str("unathorized request, not enough rights"),
            RequestError::InvalidGameName { game_name } => {
                let mut r = String::from_str("invalid game name: ");
                r.append(game_name.as_str());
                r
            },
            RequestError::GameAlreadyExists { game_name } => {
                let mut r = String::from_str("a game called ");
                r.append(game_name.as_str());
                r.append(" already exists in the database");
                r
            },
            RequestError::NoSuchGame { game_name } => {
                let mut r = String::from_str("no game with the name ");
                r.append(game_name.as_str());
                r.append(" exists in the database");
                r
            },
        }
    }
}

pub open spec fn message_of(e: ErrorView) -> Seq<char> {
    match e {
        ErrorView::Unauthorized => "unathorized request"@,
        ErrorView::Forbidden => "unathorized request, not enough rights"@,
        ErrorView::InvalidGameName(name) => "invalid game name: "@ + name,
        ErrorView::GameAlreadyExists(name) => "a game called "@ + name
            + " already exists in the database"@,
        ErrorView::NoSuchGame(name) => "no game with the name "@ + name
            + " exists in the database"@,
    }
}

} // verus!
