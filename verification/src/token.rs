//! The bearer credential: when it is valid, when it is due for refresh, and
//! how a refresh changes it.
use vstd::prelude::*;
use vstd::string::*;
use crate::config::ApiConfig;
use crate::error::Error;

verus! {

/// Seconds before expiry from which a credential is refreshed.
pub const REFRESH_MARGIN_SECS: i64 = 1800;

/// The credential as the authorization endpoint issues it.
#[derive(Debug, Clone, PartialEq, Eq)]
pub struct AccessTokenResponse {
    pub access_token: String,
    pub refresh_token: String,
    /// Seconds of validity, counted from issuance.
    pub expires_in: i64,
    pub state: Option<String>,
    pub token_type: String,
    /// When the credential was issued, in seconds since the epoch. Set only
    /// by an issuance or a refresh.
    pub create_timestamp: Option<i64>,
}

impl Default for AccessTokenResponse {
    /// The credential of a monitor that has none yet: empty tokens, never
    /// issued.
    fn default() -> (r: Self)
        ensures
            r.is_blank(),
    {
        AccessTokenResponse {
            access_token: String::new(),
            refresh_token: String::new(),
            expires_in: 0,
            state: None,
            token_type: String::new(),
            create_timestamp: None,
        }
    }
}

impl AccessTokenResponse {
    /// Nothing is there: the tokens are empty and the credential was never
    /// issued.
    pub open spec fn is_blank(&self) -> bool {
        &&& self.access_token@.len() == 0
        &&& self.refresh_token@.len() == 0
        &&& self.expires_in == 0
        &&& self.state is None
        &&& self.token_type@.len() == 0
        &&& self.create_timestamp is None
    }

    /// Both tokens are there.
    pub open spec fn usable(&self) -> bool {
        self.access_token@.len() > 0 && self.refresh_token@.len() > 0
    }

    /// Whether the credential is due for refresh at `now`: it was never
    /// issued, or less than half an hour of its validity is left.
    pub open spec fn due(&self, now: i64) -> bool {
        match self.create_timestamp {
            None => true,
            Some(issued) => issued + self.expires_in - now < REFRESH_MARGIN_SECS,
        }
    }

    /// The credential with `now` as its time of issuance.
    pub open spec fn issued_at(self, now: i64) -> Self {
        AccessTokenResponse { create_timestamp: Some(now), ..self }
    }

    /// Stamps the credential as issued at `now`.
    pub fn issued(self, now: i64) -> (r: Self)
        ensures
            r == self.issued_at(now),
    {
        AccessTokenResponse {
            access_token: self.access_token,
            refresh_token: self.refresh_token,
            expires_in: self.expires_in,
            state: self.state,
            token_type: self.token_type,
            create_timestamp: Some(now),
        }
    }
}

/// The body of a refresh request.
#[derive(Debug, Clone, PartialEq, Eq)]
pub struct RefreshRequest {
    /// Where the request is posted.
    pub url: String,
    pub grant_type: String,
    pub client_id: String,
    pub refresh_token: String,
    pub scope: String,
}

/// The credential store of the monitor. One instance is shared by the
/// supervisor and every unit; whoever shares it serialises access.
#[derive(Debug, Clone, PartialEq, Eq)]
pub struct TokenState {
    cookie: String,
    token: AccessTokenResponse,
    conf: ApiConfig,
    /// A unit met a refused credential since the last refresh.
    refused: bool,
}

impl TokenState {
    /// The session cookie that the store was started with.
    pub closed spec fn cookie(&self) -> String {
        self.cookie
    }

    /// The credential held.
    pub closed spec fn token(&self) -> AccessTokenResponse {
        self.token
    }

    /// The configuration held.
    pub closed spec fn conf(&self) -> ApiConfig {
        self.conf
    }

    /// Whether a unit reported the credential as refused since the last
    /// refresh.
    pub closed spec fn refused(&self) -> bool {
        self.refused
    }

    /// Starts the store from what the credential cache held: the cached
    /// credential, the empty credential where there was no cache, and the
    /// failure where the cache could not be read.
    pub fn new(conf: &ApiConfig, cookie: String, cached: Result<Option<AccessTokenResponse>, Error>)
        -> (r: Result<Self, Error>)
        ensures
            match cached {
                Err(e) => r == Err::<Self, Error>(e),
                Ok(found) => r is Ok && r.unwrap().cookie() == cookie && r.unwrap().conf() == *conf
                    && !r.unwrap().refused() && match found {
                    Some(t) => r.unwrap().token() == t,
                    None => r.unwrap().token().is_blank(),
                },
            },
    {
        let token = match cached {
            Err(e) => {
                return Err(e);
            },
            Ok(Some(t)) => t,
            Ok(None) => AccessTokenResponse::default(),
        };
        Ok(
            TokenState {
                cookie,
                token,
                conf: ApiConfig {
                    auth_root: conf.auth_root.clone(),
                    api_root: conf.api_root.clone(),
                    stream_path: conf.stream_path.clone(),
                },
                refused: false,
            },
        )
    }

    /// Whether the credential can be used: both tokens are there.
    pub fn is_valid(&self) -> (valid: bool)
        ensures
            valid == self.token().usable(),
    {
        !self.token.access_token.as_str().is_empty() && !self.token.refresh_token.as_str().is_empty()
    }

    /// Whether the credential is due for refresh at `now`.
    pub fn needs_refresh(&self, now: i64) -> (due: bool)
        ensures
            due == self.token().due(now),
    {
        match self.token.create_timestamp {
            None => true,
            Some(issued) => (issued as i128) + (self.token.expires_in as i128) - (now as i128)
                < 1800,
        }
    }

    /// Notes that the service refused the credential. The next check asks
    /// for a refresh, whatever the expiry says.
    pub fn report_refused(&mut self)
        ensures
            final(self).refused(),
            final(self).token() == old(self).token(),
            final(self).conf() == old(self).conf(),
            final(self).cookie() == old(self).cookie(),
    {
        self.refused = true;
    }

    /// Whether `req` is the request that refreshes the credential held: a
    /// grant by refresh token, posted to the token endpoint of the
    /// authorization root.
    pub open spec fn refreshes(&self, req: RefreshRequest) -> bool {
        &&& req.url@ == self.conf().auth_root@ + "/oauth2/v3/token"@
        &&& req.grant_type@ == "refresh_token"@
        &&& req.client_id@ == "ownerapi"@
        &&& req.refresh_token == self.token().refresh_token
        &&& req.scope@ == "openid email offline_access"@
    }

    /// The request that refreshes the credential held.
    pub fn refresh_request(&self) -> (req: RefreshRequest)
        ensures
            self.refreshes(req),
    {
        let mut url = self.conf.auth_root.clone();
        url.append("/oauth2/v3/token");
        RefreshRequest {
            url,
            grant_type: String::from_str("refresh_token"),
            client_id: String::from_str("ownerapi"),
            refresh_token: self.token.refresh_token.clone(),
            scope: String::from_str("openid email offline_access"),
        }
    }

    /// Decides whether to refresh at `now`: the request to send where the
    /// credential is due or was refused, nothing otherwise.
    pub fn check_refresh_token(&self, now: i64) -> (req: Option<RefreshRequest>)
        ensures
            req is Some <==> self.token().due(now) || self.refused(),
            req matches Some(q) ==> self.refreshes(q),
    {
        if self.refused || self.needs_refresh(now) {
            Some(self.refresh_request())
        } else {
            None
        }
    }

    /// Takes the answer to a refresh request. An issued credential replaces
    /// the one held, stamped as issued at `now`; a failure is handed back as
    /// it came and changes nothing.
    ///
    /// The credential cache is written before the store is changed: the
    /// caller writes `reply.issued(now)` to the cache first and hands the
    /// reply in once that is done, so that the store never holds a
    /// credential that the cache does not.
    pub fn refresh_token(&mut self, reply: Result<AccessTokenResponse, Error>, now: i64) -> (r:
        Result<(), Error>)
        ensures
            final(self).cookie() == old(self).cookie(),
            final(self).conf() == old(self).conf(),
            match reply {
                Ok(t) => r is Ok && final(self).token() == t.issued_at(now)
                    && !final(self).refused(),
                Err(e) => r == Err::<(), Error>(e) && final(self).token() == old(self).token()
                    && final(self).refused() == old(self).refused(),
            },
    {
        match reply {
            Ok(t) => {
                self.token = t.issued(now);
                self.refused = false;
                Ok(())
            },
            Err(e) => Err(e),
        }
    }

    /// Replaces both tokens by hand and stamps the credential as issued at
    /// `now`.
    pub fn set_api_token(&mut self, access_token: &str, refresh_token: &str, now: i64)
        ensures
            final(self).token().access_token@ == access_token@,
            final(self).token().refresh_token@ == refresh_token@,
            final(self).token().create_timestamp == Some(now),
            final(self).token().expires_in == old(self).token().expires_in,
            final(self).token().state == old(self).token().state,
            final(self).token().token_type == old(self).token().token_type,
            final(self).cookie() == old(self).cookie(),
            final(self).conf() == old(self).conf(),
            final(self).refused() == old(self).refused(),
    {
        self.token.access_token = String::from_str(access_token);
        self.token.refresh_token = String::from_str(refresh_token);
        self.token.create_timestamp = Some(now);
    }

    /// The credential held, as it is written to the credential cache.
    pub fn credential(&self) -> (t: &AccessTokenResponse)
        ensures
            *t == self.token(),
    {
        &self.token
    }

    /// The session cookie that the store was started with.
    pub fn session_cookie(&self) -> (c: &String)
        ensures
            *c == self.cookie(),
    {
        &self.cookie
    }

    /// Whether a unit reported the credential as refused since the last
    /// refresh.
    pub fn was_refused(&self) -> (refused: bool)
        ensures
            refused == self.refused(),
    {
        self.refused
    }

    /// The configuration held.
    pub fn config(&self) -> (c: &ApiConfig)
        ensures
            *c == self.conf(),
    {
        &self.conf
    }
}

/// For a credential that was issued, refresh is due exactly from half an
/// hour before expiry on, that instant itself excepted: at the instant, half
/// an hour is left, which is not less than half an hour.
pub proof fn lemma_refresh_window(token: AccessTokenResponse, now: i64)
    requires
        token.create_timestamp is Some,
        now != token.create_timestamp.unwrap() + token.expires_in - REFRESH_MARGIN_SECS,
    ensures
        token.due(now) <==> now >= token.create_timestamp.unwrap() + token.expires_in
            - REFRESH_MARGIN_SECS,
{
}

/// A credential that is valid for more than half an hour is not due at the
/// moment of its issuance.
pub proof fn lemma_fresh_after_refresh(token: AccessTokenResponse, now: i64)
    requires
        token.expires_in > REFRESH_MARGIN_SECS,
    ensures
        !token.issued_at(now).due(now),
{
}

} // verus!
