//! Assembly of the three identity header values.
//!
//! The grammar is a compatibility surface: field order, separators and tag
//! tokens are reproduced character for character.
//!
//! * agent mode: `spec`
//! * SDK-style user agent:
//!   `aws-sdk-js/{sdk} KiroIDE-{ide}-{hash}`
//! * full user agent:
//!   `aws-sdk-js/{sdk} ua/2.1 os/{os} lang/js md/nodejs#{runtime} api/codewhispererstreaming#{sdk} m/E KiroIDE-{ide}-{hash}`
//!
//! One hash is drawn per call and written into both strings.

use vstd::prelude::*;
use crate::commit_hash::{generate_random_git_hash, is_commit_hash};
use crate::policy::{AGENT_MODE, COMMIT_HASH_LEN, SDK_VERSION};
use crate::versions::{
    generate_random_node_version, generate_random_os_version, is_node_version, is_os_version,
};

verus! {

/// The header values of one request.
pub struct UserAgentHeaders {
    pub x_amzn_kiro_agent_mode: &'static str,
    pub x_amz_user_agent: String,
    pub user_agent: String,
}

/// The header values as character sequences.
pub ghost struct HeaderTexts {
    pub x_amzn_kiro_agent_mode: Seq<char>,
    pub x_amz_user_agent: Seq<char>,
    pub user_agent: Seq<char>,
}

impl View for UserAgentHeaders {
    type V = HeaderTexts;

    open spec fn view(&self) -> HeaderTexts {
        HeaderTexts {
            x_amzn_kiro_agent_mode: self.x_amzn_kiro_agent_mode@,
            x_amz_user_agent: self.x_amz_user_agent@,
            user_agent: self.user_agent@,
        }
    }
}

/// The product tag that closes both user-agent strings.
pub open spec fn product_tag(ide_version: Seq<char>, hash: Seq<char>) -> Seq<char> {
    "KiroIDE-"@ + ide_version + "-"@ + hash
}

/// The SDK-style user agent.
pub open spec fn sdk_user_agent_text(ide_version: Seq<char>, hash: Seq<char>) -> Seq<char> {
    "aws-sdk-js/"@ + SDK_VERSION@ + " "@ + product_tag(ide_version, hash)
}

/// The full user agent.
pub open spec fn full_user_agent_text(
    ide_version: Seq<char>,
    os_version: Seq<char>,
    node_version: Seq<char>,
    hash: Seq<char>,
) -> Seq<char> {
    "aws-sdk-js/"@ + SDK_VERSION@ + " ua/2.1 os/"@ + os_version + " lang/js md/nodejs#"@
        + node_version + " api/codewhispererstreaming#"@ + SDK_VERSION@ + " m/E "@ + product_tag(
        ide_version,
        hash,
    )
}

/// The three header values for the given IDE version and environment.
pub open spec fn identity_headers(
    ide_version: Seq<char>,
    os_version: Seq<char>,
    node_version: Seq<char>,
    hash: Seq<char>,
) -> HeaderTexts {
    HeaderTexts {
        x_amzn_kiro_agent_mode: AGENT_MODE@,
        x_amz_user_agent: sdk_user_agent_text(ide_version, hash),
        user_agent: full_user_agent_text(ide_version, os_version, node_version, hash),
    }
}

/// `h` is a header set for `ide_version` over some well-formed environment:
/// one OS version, one runtime version and one commit hash, the same hash in
/// both strings.
pub open spec fn is_identity_headers_for(h: HeaderTexts, ide_version: Seq<char>) -> bool {
    exists|os_version: Seq<char>, node_version: Seq<char>, hash: Seq<char>|
        {
            &&& is_os_version(os_version)
            &&& is_node_version(node_version)
            &&& is_commit_hash(hash)
            &&& h == #[trigger] identity_headers(ide_version, os_version, node_version, hash)
        }
}

/// The last forty characters of a user-agent string: its commit hash.
pub open spec fn trailing_hash(user_agent: Seq<char>) -> Seq<char> {
    user_agent.subrange(user_agent.len() - COMMIT_HASH_LEN, user_agent.len() as int)
}

/// Both user-agent strings end in the hash they were built from.
pub proof fn lemma_trailing_hash(
    ide_version: Seq<char>,
    os_version: Seq<char>,
    node_version: Seq<char>,
    hash: Seq<char>,
)
    requires
        hash.len() == COMMIT_HASH_LEN,
    ensures
        trailing_hash(sdk_user_agent_text(ide_version, hash)) == hash,
        trailing_hash(full_user_agent_text(ide_version, os_version, node_version, hash)) == hash,
{
    assert(trailing_hash(sdk_user_agent_text(ide_version, hash)) =~= hash);
    assert(trailing_hash(full_user_agent_text(ide_version, os_version, node_version, hash))
        =~= hash);
}

/// Within one header set the two user-agent strings carry the same commit
/// hash.
pub proof fn lemma_headers_share_commit_hash(h: HeaderTexts, ide_version: Seq<char>)
    requires
        is_identity_headers_for(h, ide_version),
    ensures
        is_commit_hash(trailing_hash(h.user_agent)),
        trailing_hash(h.x_amz_user_agent) == trailing_hash(h.user_agent),
{
    let (os_version, node_version, hash) = choose|
        os_version: Seq<char>,
        node_version: Seq<char>,
        hash: Seq<char>,
    |
        {
            &&& is_os_version(os_version)
            &&& is_node_version(node_version)
            &&& is_commit_hash(hash)
            &&& h == #[trigger] identity_headers(ide_version, os_version, node_version, hash)
        };
    lemma_trailing_hash(ide_version, os_version, node_version, hash);
}

/// Both user-agent strings open with the SDK name and version and close with
/// the product tag of the IDE version; the agent mode is `spec`.
pub proof fn lemma_headers_fixed_fields(
    ide_version: Seq<char>,
    os_version: Seq<char>,
    node_version: Seq<char>,
    hash: Seq<char>,
)
    ensures
        ({
            let h = identity_headers(ide_version, os_version, node_version, hash);
            &&& h.x_amzn_kiro_agent_mode == "spec"@
            &&& "aws-sdk-js/1.0.18"@.is_prefix_of(h.x_amz_user_agent)
            &&& "aws-sdk-js/1.0.18"@.is_prefix_of(h.user_agent)
            &&& product_tag(ide_version, hash).is_suffix_of(h.x_amz_user_agent)
            &&& product_tag(ide_version, hash).is_suffix_of(h.user_agent)
        }),
{
    reveal_strlit("aws-sdk-js/");
    reveal_strlit("1.0.18");
    reveal_strlit("aws-sdk-js/1.0.18");
    let h = identity_headers(ide_version, os_version, node_version, hash);
    let opening = "aws-sdk-js/"@ + SDK_VERSION@;
    assert(opening =~= "aws-sdk-js/1.0.18"@);
    assert(h.x_amz_user_agent.subrange(0, 17) =~= opening);
    assert(h.user_agent.subrange(0, 17) =~= opening);
    let tag = product_tag(ide_version, hash);
    assert(h.x_amz_user_agent.subrange(
        h.x_amz_user_agent.len() - tag.len(),
        h.x_amz_user_agent.len() as int,
    ) =~= tag);
    assert(h.user_agent.subrange(h.user_agent.len() - tag.len(), h.user_agent.len() as int)
        =~= tag);
}

/// The header set for the given IDE version and environment. Nothing is
/// drawn and nothing is validated: every argument is written out as it is.
pub fn assemble_user_agent_headers(
    kiro_version: &str,
    os_version: &str,
    node_version: &str,
    hash: &str,
) -> (headers: UserAgentHeaders)
    ensures
        headers@ == identity_headers(kiro_version@, os_version@, node_version@, hash@),
{
    let mut short = String::new();
    short.append("aws-sdk-js/");
    short.append(SDK_VERSION);
    short.append(" ");
    short.append("KiroIDE-");
    short.append(kiro_version);
    short.append("-");
    short.append(hash);
    assert(short@ =~= sdk_user_agent_text(kiro_version@, hash@));

    let mut full = String::new();
    full.append("aws-sdk-js/");
    full.append(SDK_VERSION);
    full.append(" ua/2.1 os/");
    full.append(os_version);
    full.append(" lang/js md/nodejs#");
    full.append(node_version);
    full.append(" api/codewhispererstreaming#");
    full.append(SDK_VERSION);
    full.append(" m/E ");
    full.append("KiroIDE-");
    full.append(kiro_version);
    full.append("-");
    full.append(hash);
    assert(full@ =~= full_user_agent_text(kiro_version@, os_version@, node_version@, hash@));

    UserAgentHeaders {
        x_amzn_kiro_agent_mode: AGENT_MODE,
        x_amz_user_agent: short,
        user_agent: full,
    }
}

/// Fresh identity headers for the given IDE version.
///
/// The IDE version is opaque: any string is accepted, the empty one too, and
/// it is written out untouched. The OS version, the runtime version and the
/// commit hash are each drawn exactly once; the one hash goes into both
/// user-agent strings.
pub fn build_user_agent_headers(kiro_version: &str) -> (headers: UserAgentHeaders)
    ensures
        is_identity_headers_for(headers@, kiro_version@),
        headers.x_amzn_kiro_agent_mode@ == "spec"@,
        is_commit_hash(trailing_hash(headers.user_agent@)),
        trailing_hash(headers.x_amz_user_agent@) == trailing_hash(headers.user_agent@),
{
    let os_version = generate_random_os_version();
    let node_version = generate_random_node_version();
    let hash = generate_random_git_hash();
    let headers = assemble_user_agent_headers(
        kiro_version,
        os_version.as_str(),
        node_version.as_str(),
        hash.as_str(),
    );
    proof {
        lemma_headers_share_commit_hash(headers@, kiro_version@);
    }
    headers
}

} // verus!
