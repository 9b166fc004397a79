//! The record that says which tracker and board to talk to, and as whom.

use crate::auth::{
    authorization, basic_auth_header, can_encode, credentials, credentials_in, encodable,
};
use vstd::prelude::*;
use vstd::string::*;

verus! {

/// The credentials and the board. It is the one thing that outlives a run
/// of the program, and it changes only when the token is replaced.
#[derive(Debug, Clone, PartialEq, Eq)]
pub struct Config {
    pub domain: String,
    pub email: String,
    pub api_token: String,
    pub board_id: String,
    pub project_key: Option<String>,
}

/// The model of a `Config`.
pub struct ConfigView {
    pub domain: Seq<char>,
    pub email: Seq<char>,
    pub api_token: Seq<char>,
    pub board_id: Seq<char>,
    pub project_key: Option<Seq<char>>,
}

impl View for Config {
    type V = ConfigView;

    open spec fn view(&self) -> ConfigView {
        ConfigView {
            domain: self.domain@,
            email: self.email@,
            api_token: self.api_token@,
            board_id: self.board_id@,
            project_key: match self.project_key {
                Some(key) => Some(key@),
                None => None,
            },
        }
    }
}

impl ConfigView {
    /// The same record with another token.
    pub open spec fn with_token(self, token: Seq<char>) -> ConfigView {
        ConfigView { api_token: token, ..self }
    }

    /// Whether the `Authorization` header of this record can be built on
    /// this machine.
    pub open spec fn can_authorize(self) -> bool {
        encodable(self.email, self.api_token)
    }

    /// The value of the `Authorization` header that goes with every
    /// request made for this record.
    pub open spec fn authorization(self) -> Seq<char> {
        authorization(self.email, self.api_token)
    }

    /// The project that new issues are filed under: the configured one,
    /// or the fixed one where none is configured.
    pub open spec fn project(self) -> Seq<char> {
        match self.project_key {
            Some(key) => key,
            None => "SKLLS"@,
        }
    }
}

impl Config {
    /// A record as it is first created: no project key is set.
    pub fn new(
        domain: String,
        email: String,
        api_token: String,
        board_id: String,
    ) -> (config: Config)
        ensures
            config@ == (ConfigView {
                domain: domain@,
                email: email@,
                api_token: api_token@,
                board_id: board_id@,
                project_key: None,
            }),
    {
        Config { domain, email, api_token, board_id, project_key: None }
    }

    /// Replaces the token and leaves the rest as it is.
    pub fn rotate_token(&mut self, token: String)
        ensures
            final(self)@ == old(self)@.with_token(token@),
    {
        self.api_token = token;
    }

    /// A copy of the record.
    pub fn snapshot(&self) -> (copy: Config)
        ensures
            copy@ == self@,
    {
        Config {
            domain: self.domain.clone(),
            email: self.email.clone(),
            api_token: self.api_token.clone(),
            board_id: self.board_id.clone(),
            project_key: match &self.project_key {
                Some(key) => Some(key.clone()),
                None => None,
            },
        }
    }

    /// Whether `authorization` can be called on this record.
    pub fn can_authorize(&self) -> (fits: bool)
        ensures
            fits == self@.can_authorize(),
    {
        can_encode(self.email.as_str(), self.api_token.as_str())
    }

    /// Builds the value of the `Authorization` header from the email and
    /// the token that the record holds now. The header carries exactly
    /// `email:token`.
    pub fn authorization(&self) -> (header: String)
        requires
            self@.can_authorize(),
        ensures
            header@ == self@.authorization(),
            credentials_in(header@) == Some(credentials(self@.email, self@.api_token)),
    {
        basic_auth_header(self.email.as_str(), self.api_token.as_str())
    }

    /// The project that new issues are filed under.
    pub fn project(&self) -> (key: String)
        ensures
            key@ == self@.project(),
    {
        match &self.project_key {
            Some(key) => key.clone(),
            None => String::from_str("SKLLS"),
        }
    }
}

} // verus!
