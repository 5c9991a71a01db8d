//! OAuth identity providers: their names, their configuration, the request
//! that fetches a user's details from them, and the set of configured
//! providers.

use vstd::prelude::*;
use vstd::string::StringExecFns;
use super::error::Error;

verus! {

/// An OAuth identity provider the framework can log users in with.
#[derive(Clone, Copy, Debug, PartialEq, Eq, Structural, Hash)]
pub enum IdentityProvider {
    GitHub,
    Discord,
}

/// The lowercase name of a provider, as it appears in URLs and settings.
pub open spec fn provider_name(p: IdentityProvider) -> Seq<char> {
    match p {
        IdentityProvider::GitHub => "github"@,
        IdentityProvider::Discord => "discord"@,
    }
}

/// The endpoint that describes the user an access token belongs to.
pub open spec fn user_info_url(p: IdentityProvider) -> Seq<char> {
    match p {
        IdentityProvider::GitHub => "https://api.github.com/user"@,
        IdentityProvider::Discord => "https://discord.com/api/users/@me"@,
    }
}

/// The text of a boolean, as `Display` writes it.
pub open spec fn bool_text(b: bool) -> Seq<char> {
    if b {
        "true"@
    } else {
        "false"@
    }
}

/// The URI a provider sends the user back to after authorization.
pub open spec fn spec_redirect_uri(p: IdentityProvider, intermediary_redirect: bool) -> Seq<char> {
    "http://localhost:3000/login/oauth/"@ + provider_name(p) + "/callback?intermediary_redirect="@
        + bool_text(intermediary_redirect)
}

/// The redirect URI of a provider carries the configured flag, whatever the
/// provider: it is the provider's callback path under
/// `http://localhost:3000/login/oauth/`, ending in
/// `?intermediary_redirect=true` exactly when the flag is set and
/// `?intermediary_redirect=false` otherwise.
pub proof fn lemma_redirect_uri_carries_flag(p: IdentityProvider, flag: bool)
    ensures
        spec_redirect_uri(p, flag) == "http://localhost:3000/login/oauth/"@ + (match p {
            IdentityProvider::GitHub => "github"@,
            IdentityProvider::Discord => "discord"@,
        }) + "/callback?intermediary_redirect="@ + (if flag {
            "true"@
        } else {
            "false"@
        }),
        spec_redirect_uri(p, true) != spec_redirect_uri(p, false),
{
    reveal_strlit("true");
    reveal_strlit("false");
    let head = "http://localhost:3000/login/oauth/"@ + provider_name(p)
        + "/callback?intermediary_redirect="@;
    assert(spec_redirect_uri(p, true) == head + "true"@);
    assert(spec_redirect_uri(p, false) == head + "false"@);
    assert((head + "true"@).len() != (head + "false"@).len());
}

/// Each provider has its own lowercase name, `github` or `discord`, and
/// its user details are fetched from its own endpoint:
/// `https://api.github.com/user` for GitHub and
/// `https://discord.com/api/users/@me` for Discord.
pub proof fn lemma_provider_names_and_endpoints(p: IdentityProvider)
    ensures
        provider_name(p) == (match p {
            IdentityProvider::GitHub => "github"@,
            IdentityProvider::Discord => "discord"@,
        }),
        user_info_url(p) == (match p {
            IdentityProvider::GitHub => "https://api.github.com/user"@,
            IdentityProvider::Discord => "https://discord.com/api/users/@me"@,
        }),
        provider_name(IdentityProvider::GitHub) != provider_name(IdentityProvider::Discord),
{
    reveal_strlit("github");
    reveal_strlit("discord");
    assert("github"@.len() != "discord"@.len());
}

impl IdentityProvider {
    /// The lowercase name of this provider.
    pub fn name(&self) -> (s: &'static str)
        ensures
            s@ == provider_name(*self),
    {
        match self {
            IdentityProvider::GitHub => "github",
            IdentityProvider::Discord => "discord",
        }
    }

    /// The URI this provider sends the user back to after authorization.
    pub fn redirect_uri(&self, intermediary_redirect: bool) -> (s: String)
        ensures
            s@ == spec_redirect_uri(*self, intermediary_redirect),
    {
        let flag = if intermediary_redirect {
            "true"
        } else {
            "false"
        };
        "http://localhost:3000/login/oauth/".to_owned().concat(self.name()).concat(
            "/callback?intermediary_redirect=",
        ).concat(flag)
    }

    /// The request that fetches the details of the user who owns
    /// `access_token`.
    pub fn user_info_request(&self, access_token: &str) -> (r: UserInfoRequest)
        ensures
            r.url@ == user_info_url(*self),
            r.user_agent@ == "lowboy"@,
            r.authorization@ == "Bearer "@ + access_token@,
    {
        let url = match self {
            IdentityProvider::GitHub => "https://api.github.com/user",
            IdentityProvider::Discord => "https://discord.com/api/users/@me",
        };
        UserInfoRequest {
            url: url.to_owned(),
            user_agent: "lowboy".to_owned(),
            authorization: "Bearer ".to_owned().concat(access_token),
        }
    }
}

/// An HTTP GET request for a user's details: the endpoint and the values of
/// the `User-Agent` and `Authorization` headers.
pub struct UserInfoRequest {
    pub url: String,
    pub user_agent: String,
    pub authorization: String,
}

/// How to reach one identity provider.
pub struct IdentityProviderConfig {
    pub kind: IdentityProvider,
    pub client_id: String,
    pub client_secret: String,
    pub auth_url: String,
    pub token_url: String,
    pub intermediary_redirect: bool,
    pub scopes: Vec<String>,
    pub extra_params: Vec<(String, String)>,
}

/// Whether no two of the extra parameters share a name.
pub open spec fn param_names_distinct(params: Seq<(String, String)>) -> bool {
    forall|i: int, j: int| 0 <= i < j < params.len() ==> #[trigger] params[i].0@ != #[trigger] params[j].0@
}

impl IdentityProviderConfig {
    /// A configuration is well formed when its extra parameters, a map
    /// from name to value, name each parameter once.
    pub open spec fn wf(&self) -> bool {
        param_names_distinct(self.extra_params@)
    }

    /// A configuration with no scopes, no extra parameters and no
    /// intermediary redirect.
    pub fn new(
        kind: IdentityProvider,
        client_id: String,
        client_secret: String,
        auth_url: String,
        token_url: String,
    ) -> (c: Self)
        ensures
            c.kind == kind,
            c.client_id == client_id,
            c.client_secret == client_secret,
            c.auth_url == auth_url,
            c.token_url == token_url,
            !c.intermediary_redirect,
            c.scopes@.len() == 0,
            c.extra_params@.len() == 0,
            c.wf(),
    {
        IdentityProviderConfig {
            kind,
            client_id,
            client_secret,
            auth_url,
            token_url,
            intermediary_redirect: false,
            scopes: Vec::new(),
            extra_params: Vec::new(),
        }
    }

    /// Whether the URLs this configuration supplies parse: the
    /// authorization URL and the token URL. (The redirect URI built for its
    /// provider always parses.)
    pub open spec fn urls_parse(&self) -> bool {
        &&& url_parses(self.auth_url@)
        &&& url_parses(self.token_url@)
    }
}

/// Whether `url::Url::parse` accepts a text.
pub uninterp spec fn url_parses(text: Seq<char>) -> bool;

/// The error `url::Url::parse` gives for a text it refuses.
pub uninterp spec fn url_parse_error(text: Seq<char>) -> oauth2::url::ParseError;

/// The error a configuration whose URLs do not all parse is refused with:
/// that of its authorization URL when that one fails, else that of its
/// token URL.
pub open spec fn config_parse_error(c: IdentityProviderConfig) -> oauth2::url::ParseError {
    if !url_parses(c.auth_url@) {
        url_parse_error(c.auth_url@)
    } else {
        url_parse_error(c.token_url@)
    }
}

/// Whether a text is one of the redirect URIs the providers are given:
/// `http://localhost:3000/login/oauth/<provider>/callback?intermediary_redirect=<flag>`.
pub open spec fn is_callback_uri(text: Seq<char>) -> bool {
    ||| text == spec_redirect_uri(IdentityProvider::GitHub, true)
    ||| text == spec_redirect_uri(IdentityProvider::GitHub, false)
    ||| text == spec_redirect_uri(IdentityProvider::Discord, true)
    ||| text == spec_redirect_uri(IdentityProvider::Discord, false)
}

/// Calls `oauth2::url::Url::parse`, the parser behind `oauth2::AuthUrl::new`,
/// `TokenUrl::new` and `RedirectUrl::new`. Claimed: it succeeds exactly when
/// `url_parses` holds of the text, and it succeeds on the four redirect
/// URIs (absolute `http` URLs with a host, a port, a path and a query).
/// The error it gives is a function of the text alone, named
/// `url_parse_error`.
#[verifier::external_body]
pub(crate) fn parse_url(text: &str) -> (r: Result<(), oauth2::url::ParseError>)
    ensures
        r is Ok <==> url_parses(text@),
        r matches Err(e) ==> e == url_parse_error(text@),
        is_callback_uri(text@) ==> r is Ok,
{
    match oauth2::url::Url::parse(text) {
        Ok(_) => Ok(()),
        Err(e) => Err(e),
    }
}

/// The configured identity providers, at most one configuration each.
pub struct OAuthClientManager {
    github: Option<IdentityProviderConfig>,
    discord: Option<IdentityProviderConfig>,
}

/// The configuration the last entry of `configs` for provider `p` gives, if
/// any.
pub open spec fn last_config_for(configs: Seq<IdentityProviderConfig>, p: IdentityProvider) -> Option<
    IdentityProviderConfig,
>
    decreases configs.len(),
{
    if configs.len() == 0 {
        None
    } else if configs.last().kind == p {
        Some(configs.last())
    } else {
        last_config_for(configs.drop_last(), p)
    }
}

impl OAuthClientManager {
    /// The configuration held for provider `p`.
    pub closed spec fn config_of(&self, p: IdentityProvider) -> Option<IdentityProviderConfig> {
        match p {
            IdentityProvider::GitHub => self.github,
            IdentityProvider::Discord => self.discord,
        }
    }

    /// Every configuration held is well formed and filed under its own
    /// provider.
    pub closed spec fn wf(&self) -> bool {
        &&& (self.github matches Some(c) ==> c.kind == IdentityProvider::GitHub && c.wf())
        &&& (self.discord matches Some(c) ==> c.kind == IdentityProvider::Discord && c.wf())
    }

    /// A manager with no provider configured.
    pub fn new() -> (m: Self)
        ensures
            m.wf(),
            forall|p: IdentityProvider| m.config_of(p) is None,
    {
        OAuthClientManager { github: None, discord: None }
    }

    /// The configuration held for provider `p`.
    pub fn get(&self, p: &IdentityProvider) -> (r: Option<&IdentityProviderConfig>)
        ensures
            match r {
                Some(c) => self.config_of(*p) == Some(*c),
                None => self.config_of(*p) is None,
            },
    {
        match p {
            IdentityProvider::GitHub => self.github.as_ref(),
            IdentityProvider::Discord => self.discord.as_ref(),
        }
    }

    /// Adds the configuration of a provider, replacing the one it had. Fails,
    /// leaving the manager as it was, exactly when its authorization URL or
    /// its token URL does not parse.
    pub fn insert(&mut self, config: IdentityProviderConfig) -> (r: Result<(), Error>)
        requires
            old(self).wf(),
            config.wf(),
        ensures
            final(self).wf(),
            r is Ok <==> config.urls_parse(),
            r matches Err(e) ==> e == Error::OAuth2Url(config_parse_error(config)) && *final(self)
                == *old(self),
            r is Ok ==> final(self).config_of(config.kind) == Some(config),
            r is Ok ==> forall|q: IdentityProvider|
                q != config.kind ==> final(self).config_of(q) == old(self).config_of(q),
    {
        let redirect = config.kind.redirect_uri(config.intermediary_redirect);
        if let Err(e) = parse_url(config.auth_url.as_str()) {
            return Err(Error::OAuth2Url(e));
        }
        if let Err(e) = parse_url(config.token_url.as_str()) {
            return Err(Error::OAuth2Url(e));
        }
        assert(is_callback_uri(redirect@)) by {
            if config.kind == IdentityProvider::GitHub {
                if config.intermediary_redirect {
                    assert(redirect@ == spec_redirect_uri(IdentityProvider::GitHub, true));
                } else {
                    assert(redirect@ == spec_redirect_uri(IdentityProvider::GitHub, false));
                }
            } else if config.intermediary_redirect {
                assert(redirect@ == spec_redirect_uri(IdentityProvider::Discord, true));
            } else {
                assert(redirect@ == spec_redirect_uri(IdentityProvider::Discord, false));
            }
        }
        if let Err(e) = parse_url(redirect.as_str()) {
            return Err(Error::OAuth2Url(e));
        }
        match config.kind {
            IdentityProvider::GitHub => self.github = Some(config),
            IdentityProvider::Discord => self.discord = Some(config),
        }
        Ok(())
    }

    /// A manager holding each of `providers` in turn, later configurations of
    /// a provider replacing earlier ones. Fails when a URL of any of them
    /// does not parse.
    pub fn from_providers(providers: Vec<IdentityProviderConfig>) -> (r: Result<Self, Error>)
        requires
            forall|i: int| 0 <= i < providers@.len() ==> #[trigger] providers@[i].wf(),
        ensures
            r is Ok <==> forall|i: int| 0 <= i < providers@.len() ==> #[trigger] providers@[i].urls_parse(),
            r matches Err(e) ==> exists|i: int|
                0 <= i < providers@.len() && !#[trigger] providers@[i].urls_parse() && (forall|j: int|
                    0 <= j < i ==> #[trigger] providers@[j].urls_parse()) && e == Error::OAuth2Url(
                    config_parse_error(providers@[i]),
                ),
            r matches Ok(m) ==> m.wf() && forall|p: IdentityProvider|
                #[trigger] m.config_of(p) == last_config_for(providers@, p),
    {
        let ghost all = providers@;
        let mut rest = providers;
        let total = rest.len();
        let mut manager = OAuthClientManager::new();
        let mut done: usize = 0;
        while rest.len() > 0
            invariant
                manager.wf(),
                all.len() == total,
                all == providers@,
                forall|i: int| 0 <= i < all.len() ==> #[trigger] all[i].wf(),
                done + rest@.len() == all.len(),
                rest@ == all.subrange(done as int, all.len() as int),
                forall|i: int| 0 <= i < done ==> #[trigger] all[i].urls_parse(),
                forall|p: IdentityProvider|
                    #[trigger] manager.config_of(p) == last_config_for(all.subrange(0, done as int), p),
            decreases rest@.len(),
        {
            let config = rest.remove(0);
            proof {
                assert(config == all[done as int]);
                assert(all.subrange(0, done + 1).drop_last() =~= all.subrange(0, done as int));
                assert(all.subrange(0, done + 1).last() == config);
            }
            let ghost before = manager;
            match manager.insert(config) {
                Ok(()) => {},
                Err(e) => {
                    assert(!all[done as int].urls_parse());
                    assert(e == Error::OAuth2Url(config_parse_error(all[done as int])));
                    assert(!(forall|i: int| 0 <= i < all.len() ==> #[trigger] all[i].urls_parse()));
                    return Err(e);
                },
            }
            done = done + 1;
            assert(rest@ =~= all.subrange(done as int, all.len() as int));
            assert forall|p: IdentityProvider|
                #[trigger] manager.config_of(p) == last_config_for(all.subrange(0, done as int), p) by {
                if p != all[done - 1].kind {
                    assert(manager.config_of(p) == before.config_of(p));
                }
            }
        }
        assert(all.subrange(0, all.len() as int) =~= all);
        Ok(manager)
    }
}

} // verus!
