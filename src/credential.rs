use vstd::prelude::*;

verus! {

/// What `str::trim` leaves of a text.
pub uninterp spec fn trimmed(s: Seq<char>) -> Seq<char>;

/// Relies on `str::trim`: the text without its leading and trailing
/// whitespace, a function of the characters alone.
#[verifier::external_body]
fn trim_text(s: &str) -> (r: String)
    ensures
        r@ == trimmed(s@),
{
    s.trim().to_string()
}

pub open spec fn opt_view(o: Option<String>) -> Option<Seq<char>> {
    match o {
        Some(s) => Some(s@),
        None => None,
    }
}

/// The first candidate that is present and not empty.
pub open spec fn first_usable(candidates: Seq<Option<Seq<char>>>) -> Option<Seq<char>>
    decreases candidates.len(),
{
    if candidates.len() == 0 {
        None
    } else if candidates[0] is Some && candidates[0]->0.len() > 0 {
        candidates[0]
    } else {
        first_usable(candidates.drop_first())
    }
}

/// The places a credential can come from, each as it was read (`None`
/// where it was absent or unreadable).
#[derive(Clone, Debug)]
pub struct CredentialSources {
    /// The tool's own API key variable.
    pub tool_api_key: Option<String>,
    /// The provider's API key variable.
    pub provider_api_key: Option<String>,
    /// The provider's auth token variable.
    pub provider_auth_token: Option<String>,
    /// The auth token under `env` in the settings file.
    pub settings_auth_token: Option<String>,
    /// The API key under `env` in the settings file.
    pub settings_api_key: Option<String>,
    /// The whole content of the plain-text key file.
    pub key_file: Option<String>,
}

impl CredentialSources {
    /// The candidates in priority order, the key file trimmed.
    pub open spec fn candidates(&self) -> Seq<Option<Seq<char>>> {
        seq![
            opt_view(self.tool_api_key),
            opt_view(self.provider_api_key),
            opt_view(self.provider_auth_token),
            opt_view(self.settings_auth_token),
            opt_view(self.settings_api_key),
            match self.key_file {
                Some(s) => Some(trimmed(s@)),
                None => None,
            },
        ]
    }

    /// The credential: the first source, in priority order, that holds a
    /// non-empty text; `None` when there is none.
    pub fn resolve(&self) -> (r: Option<String>)
        ensures
            opt_view(r) == first_usable(self.candidates()),
    {
        proof {
            reveal_with_fuel(first_usable, 7);
        }
        let ghost c = self.candidates();
        assert(c.drop_first().drop_first().drop_first().drop_first().drop_first().drop_first().len()
            == 0);
        if let Some(k) = usable(&self.tool_api_key) {
            return Some(k);
        }
        if let Some(k) = usable(&self.provider_api_key) {
            return Some(k);
        }
        if let Some(k) = usable(&self.provider_auth_token) {
            return Some(k);
        }
        if let Some(k) = usable(&self.settings_auth_token) {
            return Some(k);
        }
        if let Some(k) = usable(&self.settings_api_key) {
            return Some(k);
        }
        match &self.key_file {
            Some(content) => {
                let k = trim_text(content.as_str());
                if k.as_str().is_empty() {
                    None
                } else {
                    Some(k)
                }
            },
            None => None,
        }
    }
}

/// The candidate's text where it is present and not empty.
fn usable(c: &Option<String>) -> (r: Option<String>)
    ensures
        opt_view(r) == (if c is Some && c->0@.len() > 0 {
            opt_view(*c)
        } else {
            None
        }),
{
    match c {
        Some(k) => if k.as_str().is_empty() {
            None
        } else {
            Some(k.clone())
        },
        None => None,
    }
}

} // verus!
