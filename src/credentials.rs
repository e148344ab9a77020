use vstd::prelude::*;

verus! {

/// The identity a user typed in at a login prompt.
#[derive(Debug, Clone)]
pub struct CliCredentials {
    /// The tenant.
    pub tenant_id: String,
    /// The client (application) identifier.
    pub client_id: String,
    /// The client secret, for the client-credentials flow.
    pub client_secret: Option<String>,
}

impl CliCredentials {
    /// Credentials with the given values.
    pub fn new(tenant_id: String, client_id: String, client_secret: Option<String>) -> (r: Self)
        ensures
            r.tenant_id == tenant_id,
            r.client_id == client_id,
            r.client_secret == client_secret,
    {
        CliCredentials { tenant_id, client_id, client_secret }
    }

    /// Credentials from the answers to the login prompts: an empty answer for
    /// the secret (or none asked for) means no secret.
    pub fn from_answers(tenant_id: String, client_id: String, client_secret: String) -> (r: Self)
        ensures
            r.tenant_id == tenant_id,
            r.client_id == client_id,
            client_secret@.len() == 0 ==> r.client_secret is None,
            client_secret@.len() > 0 ==> r.client_secret == Some(client_secret),
    {
        let secret = if client_secret.unicode_len() > 0 {
            Some(client_secret)
        } else {
            None
        };
        CliCredentials::new(tenant_id, client_id, secret)
    }

    /// The credentials for display, with the secret masked by one `X` per character.
    pub fn describe(&self) -> (r: String)
        ensures
            r@ == "{ tenant_id: "@ + self.tenant_id@ + ", client_id: "@ + self.client_id@
                + ", client_secret: "@ + masked(
                match self.client_secret {
                    Some(s) => s@.len(),
                    None => 0,
                },
            ) + " }"@,
    {
        let n: usize = match &self.client_secret {
            Some(s) => s.unicode_len(),
            None => 0,
        };
        let mut r = "{ tenant_id: ".to_owned();
        r.append(self.tenant_id.as_str());
        r.append(", client_id: ");
        r.append(self.client_id.as_str());
        r.append(", client_secret: ");
        let ghost before = r@;
        let mut i: usize = 0;
        while i < n
            invariant
                i <= n,
                r@ == before + masked(i as nat),
            decreases n - i,
        {
            r.append("X");
            proof {
                reveal_strlit("X");
                assert(masked((i + 1) as nat) =~= masked(i as nat) + seq!['X']);
            }
            i = i + 1;
        }
        r.append(" }");
        r
    }
}

/// `n` copies of `X`.
pub open spec fn masked(n: nat) -> Seq<char> {
    Seq::new(n, |_i: int| 'X')
}

} // verus!
