use vstd::prelude::*;
use vstd::string::*;

verus! {

/// The providers whose status pages can be queried, in catalogue order.
#[derive(Clone, Copy, Debug, PartialEq, Eq, Structural)]
pub enum Service {
    OpenAI,
    Cloudflare,
    Discord,
    Dropbox,
    DigitalOcean,
    HubSpot,
    Github,
    Bitbucket,
    Sendgrid,
    Snowflake,
    Twilio,
    Npm,
    Akamai,
    Twitch,
    SquareSpace,
    NewRelic,
    Reddit,
    Coinbase,
}

/// The service a lookup goes to when the caller names none.
pub const DEFAULT_SERVICE: Service = Service::Github;

/// Number of services in the catalogue.
pub const SERVICE_COUNT: usize = 18;

/// Every service, in catalogue order.
pub open spec fn catalogue() -> Seq<Service> {
    seq![Service::OpenAI, Service::Cloudflare, Service::Discord, Service::Dropbox, Service::DigitalOcean, Service::HubSpot, Service::Github, Service::Bitbucket, Service::Sendgrid, Service::Snowflake, Service::Twilio, Service::Npm, Service::Akamai, Service::Twitch, Service::SquareSpace, Service::NewRelic, Service::Reddit, Service::Coinbase]
}

/// The catalogue's keys, in order.
pub open spec fn key_list() -> Seq<Seq<char>> {
    catalogue().map_values(|s: Service| s.key())
}

/// The catalogue's (key, display name) pairs, in order.
pub open spec fn entry_list() -> Seq<(Seq<char>, Seq<char>)> {
    catalogue().map_values(|s: Service| (s.key(), s.display_name()))
}

/// The URL of a provider's component list.
pub open spec fn url_for_host(host: Seq<char>) -> Seq<char> {
    "https://"@ + host + "/api/v2/components.json"@
}

impl Service {
    /// The short key that selects this service.
    pub open spec fn key(self) -> Seq<char> {
        match self {
            Service::OpenAI => "openai"@,
            Service::Cloudflare => "cloudflare"@,
            Service::Discord => "discord"@,
            Service::Dropbox => "dropbox"@,
            Service::DigitalOcean => "digitalocean"@,
            Service::HubSpot => "hubspot"@,
            Service::Github => "github"@,
            Service::Bitbucket => "bitbucket"@,
            Service::Sendgrid => "sendgrid"@,
            Service::Snowflake => "snowflake"@,
            Service::Twilio => "twilio"@,
            Service::Npm => "npm"@,
            Service::Akamai => "akamai"@,
            Service::Twitch => "twitch"@,
            Service::SquareSpace => "squarespace"@,
            Service::NewRelic => "newrelic"@,
            Service::Reddit => "reddit"@,
            Service::Coinbase => "coinbase"@,
        }
    }

    /// The name shown to people.
    pub open spec fn display_name(self) -> Seq<char> {
        match self {
            Service::OpenAI => "OpenAI"@,
            Service::Cloudflare => "Cloudflare"@,
            Service::Discord => "Discord"@,
            Service::Dropbox => "Dropbox"@,
            Service::DigitalOcean => "Digital Ocean"@,
            Service::HubSpot => "Hubspot"@,
            Service::Github => "Github"@,
            Service::Bitbucket => "Bitbucket"@,
            Service::Sendgrid => "Sendgrid"@,
            Service::Snowflake => "Snowflake"@,
            Service::Twilio => "Twilio"@,
            Service::Npm => "Npm"@,
            Service::Akamai => "Akamai"@,
            Service::Twitch => "Twitch"@,
            Service::SquareSpace => "Squarespace"@,
            Service::NewRelic => "New Relic"@,
            Service::Reddit => "Reddit"@,
            Service::Coinbase => "Coinbase"@,
        }
    }

    /// The host name of the provider's status page.
    pub open spec fn host(self) -> Seq<char> {
        match self {
            Service::OpenAI => "status.openai.com"@,
            Service::Cloudflare => "www.cloudflarestatus.com"@,
            Service::Discord => "discordstatus.com"@,
            Service::Dropbox => "status.dropbox.com"@,
            Service::DigitalOcean => "status.digitalocean.com"@,
            Service::HubSpot => "status.hubspot.com"@,
            Service::Github => "www.githubstatus.com"@,
            Service::Bitbucket => "bitbucket.status.atlassian.com"@,
            Service::Sendgrid => "status.sendgrid.com"@,
            Service::Snowflake => "status.snowflake.com"@,
            Service::Twilio => "status.twilio.com"@,
            Service::Npm => "status.npmjs.org"@,
            Service::Akamai => "www.akamaistatus.com"@,
            Service::Twitch => "status.twitch.com"@,
            Service::SquareSpace => "status.squarespace.com"@,
            Service::NewRelic => "status.newrelic.com"@,
            Service::Reddit => "www.redditstatus.com"@,
            Service::Coinbase => "status.coinbase.com"@,
        }
    }

    /// Position of this service in the catalogue.
    pub open spec fn index(self) -> int {
        match self {
            Service::OpenAI => 0,
            Service::Cloudflare => 1,
            Service::Discord => 2,
            Service::Dropbox => 3,
            Service::DigitalOcean => 4,
            Service::HubSpot => 5,
            Service::Github => 6,
            Service::Bitbucket => 7,
            Service::Sendgrid => 8,
            Service::Snowflake => 9,
            Service::Twilio => 10,
            Service::Npm => 11,
            Service::Akamai => 12,
            Service::Twitch => 13,
            Service::SquareSpace => 14,
            Service::NewRelic => 15,
            Service::Reddit => 16,
            Service::Coinbase => 17,
        }
    }

    /// The service at position `i` of the catalogue.
    pub fn from_index(i: usize) -> (r: Service)
        requires
            i < SERVICE_COUNT,
        ensures
            r == catalogue()[i as int],
            r.index() == i,
    {
        match i {
            0 => Service::OpenAI,
            1 => Service::Cloudflare,
            2 => Service::Discord,
            3 => Service::Dropbox,
            4 => Service::DigitalOcean,
            5 => Service::HubSpot,
            6 => Service::Github,
            7 => Service::Bitbucket,
            8 => Service::Sendgrid,
            9 => Service::Snowflake,
            10 => Service::Twilio,
            11 => Service::Npm,
            12 => Service::Akamai,
            13 => Service::Twitch,
            14 => Service::SquareSpace,
            15 => Service::NewRelic,
            16 => Service::Reddit,
            _ => Service::Coinbase,
        }
    }

    /// The key of this service.
    pub fn to_key(&self) -> (r: &'static str)
        ensures
            r@ == self.key(),
    {
        match self {
            Service::OpenAI => "openai",
            Service::Cloudflare => "cloudflare",
            Service::Discord => "discord",
            Service::Dropbox => "dropbox",
            Service::DigitalOcean => "digitalocean",
            Service::HubSpot => "hubspot",
            Service::Github => "github",
            Service::Bitbucket => "bitbucket",
            Service::Sendgrid => "sendgrid",
            Service::Snowflake => "snowflake",
            Service::Twilio => "twilio",
            Service::Npm => "npm",
            Service::Akamai => "akamai",
            Service::Twitch => "twitch",
            Service::SquareSpace => "squarespace",
            Service::NewRelic => "newrelic",
            Service::Reddit => "reddit",
            Service::Coinbase => "coinbase",
        }
    }

    /// The display name of this service.
    pub fn to_display_name(&self) -> (r: &'static str)
        ensures
            r@ == self.display_name(),
    {
        match self {
            Service::OpenAI => "OpenAI",
            Service::Cloudflare => "Cloudflare",
            Service::Discord => "Discord",
            Service::Dropbox => "Dropbox",
            Service::DigitalOcean => "Digital Ocean",
            Service::HubSpot => "Hubspot",
            Service::Github => "Github",
            Service::Bitbucket => "Bitbucket",
            Service::Sendgrid => "Sendgrid",
            Service::Snowflake => "Snowflake",
            Service::Twilio => "Twilio",
            Service::Npm => "Npm",
            Service::Akamai => "Akamai",
            Service::Twitch => "Twitch",
            Service::SquareSpace => "Squarespace",
            Service::NewRelic => "New Relic",
            Service::Reddit => "Reddit",
            Service::Coinbase => "Coinbase",
        }
    }

    /// The host name of this service's status page.
    pub fn to_base_url(&self) -> (r: String)
        ensures
            r@ == self.host(),
    {
        let host: &str = match self {
            Service::OpenAI => "status.openai.com",
            Service::Cloudflare => "www.cloudflarestatus.com",
            Service::Discord => "discordstatus.com",
            Service::Dropbox => "status.dropbox.com",
            Service::DigitalOcean => "status.digitalocean.com",
            Service::HubSpot => "status.hubspot.com",
            Service::Github => "www.githubstatus.com",
            Service::Bitbucket => "bitbucket.status.atlassian.com",
            Service::Sendgrid => "status.sendgrid.com",
            Service::Snowflake => "status.snowflake.com",
            Service::Twilio => "status.twilio.com",
            Service::Npm => "status.npmjs.org",
            Service::Akamai => "www.akamaistatus.com",
            Service::Twitch => "status.twitch.com",
            Service::SquareSpace => "status.squarespace.com",
            Service::NewRelic => "status.newrelic.com",
            Service::Reddit => "www.redditstatus.com",
            Service::Coinbase => "status.coinbase.com",
        };
        String::from_str(host)
    }

    /// The URL of this service's component list.
    pub fn to_url(&self) -> (r: String)
        ensures
            r@ == url_for_host(self.host()),
    {
        let mut url = String::from_str("https://");
        let host = self.to_base_url();
        url.append(host.as_str());
        url.append("/api/v2/components.json");
        url
    }

    /// The keys of all services, in catalogue order.
    pub fn to_keys() -> (r: Vec<String>)
        ensures
            r@.map_values(|s: String| s@) == key_list(),
    {
        let mut r: Vec<String> = Vec::new();
        let mut i: usize = 0;
        while i < SERVICE_COUNT
            invariant
                i <= SERVICE_COUNT,
                r@.len() == i,
                forall|j: int| 0 <= j < i ==> #[trigger] r@[j]@ == catalogue()[j].key(),
            decreases SERVICE_COUNT - i,
        {
            let s = Service::from_index(i);
            r.push(String::from_str(s.to_key()));
            i = i + 1;
        }
        assert(r@.map_values(|s: String| s@) =~= key_list());
        r
    }

    /// The (key, display name) pair of every service, in catalogue order.
    pub fn to_entries() -> (r: Vec<(String, String)>)
        ensures
            r@.map_values(|p: (String, String)| (p.0@, p.1@)) == entry_list(),
    {
        let mut r: Vec<(String, String)> = Vec::new();
        let mut i: usize = 0;
        while i < SERVICE_COUNT
            invariant
                i <= SERVICE_COUNT,
                r@.len() == i,
                forall|j: int|
                    0 <= j < i ==> (#[trigger] r@[j]).0@ == catalogue()[j].key() && r@[j].1@
                        == catalogue()[j].display_name(),
            decreases SERVICE_COUNT - i,
        {
            let s = Service::from_index(i);
            r.push((String::from_str(s.to_key()), String::from_str(s.to_display_name())));
            i = i + 1;
        }
        assert(r@.map_values(|p: (String, String)| (p.0@, p.1@)) =~= entry_list());
        r
    }

    /// The service whose key is exactly `s`, if there is one.
    pub fn from_name(s: &str) -> (r: Option<Service>)
        ensures
            match r {
                Some(x) => x.key() == s@,
                None => forall|x: Service| #[trigger] x.key() != s@,
            },
    {
        let name = s.to_owned();
        let mut i: usize = 0;
        while i < SERVICE_COUNT
            invariant
                i <= SERVICE_COUNT,
                name@ == s@,
                forall|j: int| 0 <= j < i ==> #[trigger] catalogue()[j].key() != s@,
            decreases SERVICE_COUNT - i,
        {
            let x = Service::from_index(i);
            if String::from_str(x.to_key()) == name {
                return Some(x);
            }
            i = i + 1;
        }
        proof {
            assert forall|x: Service| #[trigger] x.key() != s@ by {
                lemma_catalogue_complete(x);
            }
        }
        None
    }
}

/// Every service stands in the catalogue, at its own index.
pub proof fn lemma_catalogue_complete(x: Service)
    ensures
        0 <= x.index() < catalogue().len(),
        catalogue()[x.index()] == x,
{
}

/// Keys are unique: two services with one key are the same service.
pub proof fn lemma_keys_unique(x: Service, y: Service)
    ensures
        x.key() == y.key() ==> x == y,
{
    if x.key() == y.key() {
        reveal_strlit("openai");
        reveal_strlit("cloudflare");
        reveal_strlit("discord");
        reveal_strlit("dropbox");
        reveal_strlit("digitalocean");
        reveal_strlit("hubspot");
        reveal_strlit("github");
        reveal_strlit("bitbucket");
        reveal_strlit("sendgrid");
        reveal_strlit("snowflake");
        reveal_strlit("twilio");
        reveal_strlit("npm");
        reveal_strlit("akamai");
        reveal_strlit("twitch");
        reveal_strlit("squarespace");
        reveal_strlit("newrelic");
        reveal_strlit("reddit");
        reveal_strlit("coinbase");
        assert(x.key().len() == y.key().len());
        assert(x.key()[0] == y.key()[0]);
        assert(x.key()[x.key().len() - 1] == y.key()[y.key().len() - 1]);
    }
}

/// Lookup and the key list agree: a string is a key of some service exactly
/// when it stands in the key list, that service is the one at its position,
/// and its status page has a host name.
pub proof fn lemma_lookup_matches_keys(s: Seq<char>)
    ensures
        key_list().contains(s) <==> exists|x: Service| #[trigger] x.key() == s,
        forall|x: Service|
            #[trigger] x.key() == s ==> key_list()[x.index()] == s && catalogue()[x.index()] == x
                && x.host().len() > 0,
{
    assert forall|x: Service| #[trigger] x.key() == s implies key_list()[x.index()] == s
        && catalogue()[x.index()] == x && x.host().len() > 0 by {
        lemma_catalogue_complete(x);
        reveal_strlit("status.openai.com");
        reveal_strlit("www.cloudflarestatus.com");
        reveal_strlit("discordstatus.com");
        reveal_strlit("status.dropbox.com");
        reveal_strlit("status.digitalocean.com");
        reveal_strlit("status.hubspot.com");
        reveal_strlit("www.githubstatus.com");
        reveal_strlit("bitbucket.status.atlassian.com");
        reveal_strlit("status.sendgrid.com");
        reveal_strlit("status.snowflake.com");
        reveal_strlit("status.twilio.com");
        reveal_strlit("status.npmjs.org");
        reveal_strlit("www.akamaistatus.com");
        reveal_strlit("status.twitch.com");
        reveal_strlit("status.squarespace.com");
        reveal_strlit("status.newrelic.com");
        reveal_strlit("www.redditstatus.com");
        reveal_strlit("status.coinbase.com");
    }
    if key_list().contains(s) {
        let i = choose|i: int| 0 <= i < key_list().len() && key_list()[i] == s;
        assert(catalogue()[i].key() == s);
    }
    if exists|x: Service| #[trigger] x.key() == s {
        let x = choose|x: Service| #[trigger] x.key() == s;
        lemma_catalogue_complete(x);
        assert(key_list()[x.index()] == s);
    }
}

/// The key list and the entry list have one length, and the entry at each
/// position carries the key at that position.
pub proof fn lemma_keys_match_entries()
    ensures
        key_list().len() == entry_list().len(),
        forall|i: int| 0 <= i < key_list().len() ==> #[trigger] entry_list()[i].0 == key_list()[i],
{
}

} // verus!
