use vstd::prelude::*;
use vstd::string::StringExecFns;

verus! {

/// The four supported game-engine identities. A variant selects which binary
/// bundle and which configuration bundle the installer fetches.
#[derive(Clone, Copy, Debug, PartialEq, Eq, Structural)]
pub enum Servers {
    T6,
    T5,
    T4,
    IW5,
}

/// Prefix of the configuration-bundle URL template: the source-hosting API,
/// up to the point where the variant's display name is substituted.
pub open spec fn config_api_prefix() -> Seq<char> {
    "https://api.github.com/repos/xerxes-at/"@
}

/// Suffix of the configuration-bundle URL template, after the variant's name.
pub open spec fn config_api_suffix() -> Seq<char> {
    "ServerConfigs/zipball/master"@
}

/// The derived configuration-bundle URL: the fixed API template with the
/// variant's display name substituted exactly once, between prefix and suffix.
pub open spec fn config_url_spec(s: Servers) -> Seq<char> {
    config_api_prefix() + s.name_spec() + config_api_suffix()
}

/// Prefix of the binary-bundle URL: the file host's download endpoint, up to
/// the opaque file id.
pub open spec fn binary_host_prefix() -> Seq<char> {
    "https://drive.google.com/uc?export=download&id="@
}

/// Suffix of the binary-bundle URL, after the opaque file id.
pub open spec fn binary_host_suffix() -> Seq<char> {
    "&confirm=t"@
}

/// The derived binary-bundle URL for a variant that has one.
pub open spec fn binary_url_spec(s: Servers) -> Seq<char>
    recommends
        s.has_binary_bundle(),
{
    binary_host_prefix() + s.file_id_spec() + binary_host_suffix()
}

impl Servers {
    /// The variant's display name, as it appears in derived URLs.
    pub open spec fn name_spec(self) -> Seq<char> {
        match self {
            Servers::T6 => "T6"@,
            Servers::T5 => "T5"@,
            Servers::T4 => "T4"@,
            Servers::IW5 => "IW5"@,
        }
    }

    /// The opaque file-host id of the variant's binary bundle. Only variants
    /// with `has_binary_bundle()` have one.
    pub open spec fn file_id_spec(self) -> Seq<char>
        recommends
            self.has_binary_bundle(),
    {
        match self {
            Servers::T6 => "1RCqhm_1oMEDSk-VoeQy_tWTE-9jZ6Exd"@,
            Servers::T5 => "1bDArK1W2kVse753C0Ht_n0hRYiaQ8ZfE"@,
            Servers::T4 => "1AqTkGMXj2B2UTnm6hg_WFfQLVxXJDn3K"@,
            Servers::IW5 => Seq::empty(),
        }
    }

    /// Whether a binary bundle is published for this variant.
    pub open spec fn has_binary_bundle(self) -> bool {
        !(self is IW5)
    }

    /// The variant's display name.
    pub fn name(&self) -> (r: &'static str)
        ensures
            r@ == self.name_spec(),
    {
        match self {
            Servers::T6 => "T6",
            Servers::T5 => "T5",
            Servers::T4 => "T4",
            Servers::IW5 => "IW5",
        }
    }

    /// The binary-bundle URL for this variant, or `None` where no binary
    /// bundle is published.
    pub fn download_link(&self) -> (r: Option<String>)
        ensures
            r is Some <==> self.has_binary_bundle(),
            r matches Some(u) ==> u@ == binary_url_spec(*self),
    {
        let id = match self {
            Servers::T6 => "1RCqhm_1oMEDSk-VoeQy_tWTE-9jZ6Exd",
            Servers::T5 => "1bDArK1W2kVse753C0Ht_n0hRYiaQ8ZfE",
            Servers::T4 => "1AqTkGMXj2B2UTnm6hg_WFfQLVxXJDn3K",
            Servers::IW5 => {
                return None;
            },
        };
        let mut u = String::from_str("https://drive.google.com/uc?export=download&id=");
        u.append(id);
        u.append("&confirm=t");
        Some(u)
    }

    /// The configuration-bundle URL for this variant.
    pub fn download_link_config(&self) -> (r: String)
        ensures
            r@ == config_url_spec(*self),
    {
        let mut u = String::from_str("https://api.github.com/repos/xerxes-at/");
        u.append(self.name());
        u.append("ServerConfigs/zipball/master");
        u
    }
}

/// Law: for every variant, the derived configuration-bundle URL is the fixed
/// API template with the variant's display name substituted exactly once,
/// between the template's prefix and suffix.
pub proof fn lemma_config_url_template(s: Servers)
    ensures
        config_url_spec(s) == config_api_prefix() + s.name_spec() + config_api_suffix(),
        config_url_spec(s).subrange(
            config_api_prefix().len() as int,
            config_url_spec(s).len() - config_api_suffix().len(),
        ) == s.name_spec(),
{
    assert(config_url_spec(s).subrange(
        config_api_prefix().len() as int,
        config_url_spec(s).len() - config_api_suffix().len(),
    ) =~= s.name_spec());
}

} // verus!
