//! Where the RSA key files of each user are kept: one directory per user
//! token under the configured RSA directory.
use vstd::prelude::*;

verus! {

/// The proxy's public key file of a user.
pub const PROXY_PUBLIC_KEY_FILE: &'static str = "/ProxyPublicKey.pem";
/// The agent's private key file of a user.
pub const AGENT_PRIVATE_KEY_FILE: &'static str = "/AgentPrivateKey.pem";

/// The paths of the key files of `user_token`, `rsa_dir` written directly in
/// front of the token: the proxy's public key, then the agent's private key.
pub fn user_key_paths(rsa_dir: &str, user_token: &str) -> (r: (String, String))
    ensures
        r.0@ == rsa_dir@ + user_token@ + PROXY_PUBLIC_KEY_FILE@,
        r.1@ == rsa_dir@ + user_token@ + AGENT_PRIVATE_KEY_FILE@,
{
    let public_key_path = String::from_str(rsa_dir).concat(user_token).concat(PROXY_PUBLIC_KEY_FILE);
    let private_key_path = String::from_str(rsa_dir).concat(user_token).concat(AGENT_PRIVATE_KEY_FILE);
    (public_key_path, private_key_path)
}

} // verus!
