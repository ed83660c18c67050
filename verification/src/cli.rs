//! What the command line decides before it calls the node and after the
//! node has answered. Calling the node, and reading and printing, are
//! left to the program.

use crate::strings::reads;
use crate::strings::string_views;
use crate::rpc_api::Access;
use crate::rpc_api::AuthNewParams;
use crate::rpc_api::Seconds;
use vstd::prelude::*;
use vstd::string::StringExecFns;

verus! {

/// The items of a list, each but the first with `sep` before it.
pub open spec fn joined(items: Seq<Seq<char>>, sep: Seq<char>) -> Seq<char>
    decreases items.len(),
{
    if items.len() == 0 {
        Seq::empty()
    } else if items.len() == 1 {
        items[0]
    } else {
        joined(items.drop_last(), sep) + sep + items.last()
    }
}

/// A list as it is shown: in square brackets, with a comma and a space
/// between its items.
pub open spec fn pretty_list(items: Seq<Seq<char>>) -> Seq<char> {
    "["@ + joined(items, ", "@) + "]"@
}

/// Formats a list of strings for showing.
pub fn format_vec_pretty(vec: Vec<String>) -> (r: String)
    ensures
        r@ == pretty_list(string_views(vec@)),
{
    let ghost items = string_views(vec@);
    let mut out = String::from_str("[");
    let mut i: usize = 0;
    while i < vec.len()
        invariant
            i <= vec.len(),
            items == string_views(vec@),
            out@ == "["@ + joined(items.subrange(0, i as int), ", "@),
        decreases vec.len() - i,
    {
        let ghost before = items.subrange(0, i as int);
        let ghost after = items.subrange(0, i + 1);
        assert(after.drop_last() == before);
        if i > 0 {
            out.append(", ");
        }
        out.append(vec[i].as_str());
        i += 1;
    }
    assert(items.subrange(0, i as int) == items);
    out.append("]");
    out
}

/// Claims of a token that may do anything.
pub open spec fn admin_claims() -> Seq<Seq<char>> {
    seq!["read"@, "write"@, "sign"@, "admin"@]
}

/// Claims of a token that may read, write and sign.
pub open spec fn sign_claims() -> Seq<Seq<char>> {
    seq!["read"@, "write"@, "sign"@]
}

/// Claims of a token that may read and write.
pub open spec fn write_claims() -> Seq<Seq<char>> {
    seq!["read"@, "write"@]
}

/// Claims of a token that may only read.
pub open spec fn read_claims() -> Seq<Seq<char>> {
    seq!["read"@]
}

/// The claims that a token of the permission `perm` carries: those of
/// the permission and of every lower one. `None` where `perm` names no
/// permission.
pub open spec fn claims_of(perm: Seq<char>) -> Option<Seq<Seq<char>>> {
    if perm == "admin"@ {
        Some(admin_claims())
    } else if perm == "sign"@ {
        Some(sign_claims())
    } else if perm == "write"@ {
        Some(write_claims())
    } else if perm == "read"@ {
        Some(read_claims())
    } else {
        None
    }
}

/// A token made for a permission is granted that level and every lower
/// one, and no higher one: its claims hold the claim of a level exactly
/// if the level is not above the permission.
pub proof fn law_token_grants_up_to_its_permission(permission: Access, level: Access)
    ensures
        claims_of(permission.claim()) matches Some(claims) && (claims.contains(level.claim())
            <==> level.rank() <= permission.rank()),
{
    reveal_strlit("admin");
    reveal_strlit("sign");
    reveal_strlit("write");
    reveal_strlit("read");
    assert("admin"@[0] != "write"@[0]);
    assert("sign"@[0] != "read"@[0]);
    let claims = claims_of(permission.claim())->0;
    assert(admin_claims()[0] == "read"@ && admin_claims()[1] == "write"@ && admin_claims()[2]
        == "sign"@ && admin_claims()[3] == "admin"@);
    assert(sign_claims()[0] == "read"@ && sign_claims()[1] == "write"@ && sign_claims()[2]
        == "sign"@);
    if level.rank() <= permission.rank() {
        assert(claims[level.rank()] == level.claim());
    }
}

/// Why a command was not carried out.
#[derive(Debug, PartialEq, Eq)]
pub enum CliError {
    /// A parameter of the command is not one that the node takes.
    InvalidParams,
}

/// The first `count` of the claims, lowest first.
fn lowest_claims(count: usize) -> (r: Vec<String>)
    requires
        1 <= count <= 4,
    ensures
        string_views(r@) == admin_claims().subrange(0, count as int),
{
    let mut claims: Vec<String> = Vec::new();
    claims.push("read".to_owned());
    if count >= 2 {
        claims.push("write".to_owned());
    }
    if count >= 3 {
        claims.push("sign".to_owned());
    }
    if count >= 4 {
        claims.push("admin".to_owned());
    }
    claims
}

/// Turns the name of a permission into the claims of its token.
pub fn process_perms(perm: String) -> (r: Result<Vec<String>, CliError>)
    ensures
        match claims_of(perm@) {
            Some(claims) => r matches Ok(perms) && string_views(perms@) == claims,
            None => r == Err::<Vec<String>, CliError>(CliError::InvalidParams),
        },
{
    let count: usize = if reads(&perm, "admin") {
        4
    } else if reads(&perm, "sign") {
        3
    } else if reads(&perm, "write") {
        2
    } else if reads(&perm, "read") {
        1
    } else {
        return Err(CliError::InvalidParams);
    };
    Ok(lowest_claims(count))
}

/// Commands that manage RPC permissions.
#[derive(Debug)]
pub enum AuthCommands {
    /// Create a new authentication token with the given permission.
    CreateToken {
        /// Permission to assign to the token, one of: read, write, sign,
        /// admin.
        perm: String,
    },
    /// Show how to reach the RPC API with a new token.
    ApiInfo {
        /// Permission to assign to the token, one of: read, write, sign,
        /// admin.
        perm: String,
    },
}

impl AuthCommands {
    /// The permission that the command names.
    pub open spec fn perm(self) -> Seq<char> {
        match self {
            AuthCommands::CreateToken { perm } => perm@,
            AuthCommands::ApiInfo { perm } => perm@,
        }
    }

    /// What the command shows once the node has made the token: the token
    /// itself, or the line that tells a client where the node listens and
    /// with which token to come.
    pub open spec fn shown(self, token: Seq<char>, addr: Seq<char>) -> Seq<char> {
        match self {
            AuthCommands::CreateToken { .. } => token,
            AuthCommands::ApiInfo { .. } => "FULLNODE_API_INFO=\""@ + token + ":"@ + addr + "\""@,
        }
    }

    /// The parameters with which the command asks the node for a token
    /// that is valid for `token_exp`.
    pub fn request(&self, token_exp: Seconds) -> (r: Result<AuthNewParams, CliError>)
        ensures
            match claims_of(self.perm()) {
                Some(claims) => r matches Ok(params) && string_views(params.perms@) == claims
                    && params.token_exp == token_exp,
                None => r == Err::<AuthNewParams, CliError>(CliError::InvalidParams),
            },
    {
        let perm = match self {
            AuthCommands::CreateToken { perm } => perm.clone(),
            AuthCommands::ApiInfo { perm } => perm.clone(),
        };
        match process_perms(perm) {
            Ok(perms) => Ok(AuthNewParams { perms, token_exp }),
            Err(e) => Err(e),
        }
    }

    /// The text that the command shows for the `token` that the node
    /// made. `addr` is the address at which the node takes RPC calls.
    pub fn output(&self, token: &str, addr: &str) -> (r: String)
        ensures
            r@ == self.shown(token@, addr@),
    {
        match self {
            AuthCommands::CreateToken { .. } => String::from_str(token),
            AuthCommands::ApiInfo { .. } => {
                let mut line = String::from_str("FULLNODE_API_INFO=\"");
                line.append(token);
                line.append(":");
                line.append(addr);
                line.append("\"");
                line
            },
        }
    }
}

/// Options of the hidden `fetch-params` command, kept for those who
/// move to the separate tool.
#[derive(Debug)]
pub struct FetchCommands {
    pub all: bool,
    pub keys: bool,
    pub dry_run: bool,
    pub params_size: Option<String>,
}

/// The hidden wallet commands, kept for those who move to the separate
/// wallet.
#[derive(Debug)]
pub enum WalletCommands {
    New { signature_type: String },
    Balance { address: String },
    Default,
    Export { address: String },
    Has { key: String },
    Import { path: Option<String> },
    List { no_round: bool, no_abbrev: bool },
    SetDefault { key: String },
    Sign { message: String, address: String },
    Verify { address: String, message: String, signature: String },
}

/// The hidden archive commands, kept for those who move to the separate
/// tool.
#[derive(Debug)]
pub enum CarCommands {
    Concat { car_files: Vec<String>, output: String },
}

/// The commands of the binary that are described here.
#[derive(Debug)]
pub enum Subcommand {
    Fetch(FetchCommands),
    /// Manage RPC permissions
    Auth(AuthCommands),
    Wallet(WalletCommands),
    Car(CarCommands),
}

/// What the command line holds once it is read.
#[derive(Debug)]
pub struct Cli {
    /// Client JWT token to use for JSON-RPC authentication
    pub token: Option<String>,
    pub cmd: Subcommand,
}

/// A line of input without the white space at its ends, as `str::trim`
/// leaves it.
pub uninterp spec fn trimmed(line: Seq<char>) -> Seq<char>;

/// A text in lower case, as `str::to_lowercase` gives it.
pub uninterp spec fn lowercased(text: Seq<char>) -> Seq<char>;

/// `str::trim` of the standard library: the part of the line between
/// the white space at its ends. It depends on the line alone.
#[verifier::external_body]
fn trim(line: &str) -> (r: &str)
    ensures
        r@ == trimmed(line@),
{
    line.trim()
}

/// `str::to_lowercase` of the standard library: the text with its
/// letters in lower case. It depends on the text alone.
#[verifier::external_body]
fn to_lowercase(text: &str) -> (r: String)
    ensures
        r@ == lowercased(text@),
{
    text.to_lowercase()
}

/// Whether an answer to "Do you want to continue?" says yes: `y` or
/// `yes`, in any case, with any white space around it.
pub open spec fn says_yes(line: Seq<char>) -> bool {
    let answer = lowercased(trimmed(line));
    answer == "y"@ || answer == "yes"@
}

/// Reads the answer to a request to confirm.
pub fn confirms(line: &str) -> (r: bool)
    ensures
        r == says_yes(line@),
{
    let answer = to_lowercase(trim(line));
    reads(&answer, "y") || reads(&answer, "yes")
}

} // verus!
