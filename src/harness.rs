//! Rules of the regtest node harness: which RPC port it takes, how the compose
//! template is rendered for that port, and the names derived from the port.
//! Creating directories, writing files and running the container tool are left
//! to the caller.
use rand::Rng;
use vstd::prelude::*;

use crate::text::{
    decimal, decimal_bytes, lemma_decimal_digits, lemma_replace_leaves_no_token, occurs_at,
    replace_all, replace_bytes,
};

verus! {

/// Lowest RPC port the harness picks (start of the dynamic port range).
pub const RPC_PORT_MIN: u16 = 49152;

/// Highest RPC port the harness picks.
pub const RPC_PORT_MAX: u16 = 65534;

/// User name of the node's RPC interface, as configured by the compose template.
pub const RPC_USER: &'static str = "rpcuser";

/// Password of the node's RPC interface, as configured by the compose template.
pub const RPC_PASSWORD: &'static str = "rpcpassword";

/// Seconds the harness waits after starting the container before the node is used.
pub const SETTLE_SECONDS: u64 = 15;

/// The placeholder `{RPC_PORT}` of the compose template.
pub open spec fn port_token() -> Seq<u8> {
    seq![123u8, 82u8, 80u8, 67u8, 95u8, 80u8, 79u8, 82u8, 84u8, 125u8]
}

/// `docker-compose-`
pub open spec fn compose_prefix() -> Seq<u8> {
    seq![100u8, 111u8, 99u8, 107u8, 101u8, 114u8, 45u8, 99u8, 111u8, 109u8, 112u8, 111u8, 115u8, 101u8, 45u8]
}

/// `.yml`
pub open spec fn compose_suffix() -> Seq<u8> {
    seq![46u8, 121u8, 109u8, 108u8]
}

/// `http://127.0.0.1:`
pub open spec fn url_prefix() -> Seq<u8> {
    seq![104u8, 116u8, 116u8, 112u8, 58u8, 47u8, 47u8, 49u8, 50u8, 55u8, 46u8, 48u8, 46u8, 48u8, 46u8, 49u8, 58u8]
}

/// The template rendered for `port`: every placeholder replaced by the port's
/// decimal digits, every other byte kept.
pub open spec fn rendered(template: Seq<u8>, port: u16) -> Seq<u8> {
    replace_all(template, port_token(), decimal(port as nat))
}

proof fn lemma_replace_without_token(s: Seq<u8>, tok: Seq<u8>, rep: Seq<u8>)
    requires
        forall|i: int| 0 <= i < s.len() ==> !occurs_at(s, tok, i),
    ensures
        replace_all(s, tok, rep) == s,
    decreases s.len(),
{
    if s.len() > 0 {
        let t = s.skip(1);
        assert forall|i: int| 0 <= i < t.len() implies !occurs_at(t, tok, i) by {
            if occurs_at(t, tok, i) {
                assert(s.subrange(i + 1, i + 1 + tok.len()) =~= t.subrange(i, i + tok.len()));
                assert(occurs_at(s, tok, i + 1));
            }
        }
        lemma_replace_without_token(t, tok, rep);
        assert(!occurs_at(s, tok, 0));
        assert(seq![s[0]] + t =~= s);
    }
}

/// A template without the placeholder renders to itself, whatever the port.
pub proof fn lemma_render_keeps_plain_template(template: Seq<u8>, port: u16)
    requires
        forall|i: int| 0 <= i < template.len() ==> !occurs_at(template, port_token(), i),
    ensures
        rendered(template, port) == template,
{
    lemma_replace_without_token(template, port_token(), decimal(port as nat));
}

/// No placeholder is left in a rendered template.
pub proof fn lemma_render_leaves_no_placeholder(template: Seq<u8>, port: u16)
    ensures
        forall|i: int| !occurs_at(rendered(template, port), port_token(), i),
{
    let d = decimal(port as nat);
    lemma_decimal_digits(port as nat);
    assert(forall|j: int| 0 <= j < d.len() ==> d[j] != port_token()[0]);
    lemma_replace_leaves_no_token(template, port_token(), d);
}

/// Rendering replaces a leading placeholder by the port's digits and renders
/// the rest the same way; any other leading byte is kept as it is.
pub proof fn lemma_render_step(template: Seq<u8>, port: u16)
    requires
        template.len() > 0,
    ensures
        occurs_at(template, port_token(), 0) ==> rendered(template, port)
            == decimal(port as nat) + rendered(template.skip(port_token().len() as int), port),
        !occurs_at(template, port_token(), 0) ==> rendered(template, port)
            == seq![template[0]] + rendered(template.skip(1), port),
{
}

/// Relies on rand's `thread_rng().gen_range(lo..=hi)`: a value in the inclusive
/// range, which must not be empty.
#[verifier::external_body]
fn random_in_range(lo: u16, hi: u16) -> (r: u16)
    requires
        lo <= hi,
    ensures
        lo <= r <= hi,
{
    rand::thread_rng().gen_range(lo..=hi)
}

fn port_token_bytes() -> (r: Vec<u8>)
    ensures
        r@ == port_token(),
{
    let r: Vec<u8> = vec![123u8, 82u8, 80u8, 67u8, 95u8, 80u8, 79u8, 82u8, 84u8, 125u8];
    assert(r@ =~= port_token());
    r
}

/// Picks a pseudo-random RPC port in `RPC_PORT_MIN..=RPC_PORT_MAX`.
pub fn choose_rpc_port() -> (r: u16)
    ensures
        RPC_PORT_MIN <= r <= RPC_PORT_MAX,
{
    random_in_range(RPC_PORT_MIN, RPC_PORT_MAX)
}

/// Renders a compose template for `port`.
pub fn render_template(template: &[u8], port: u16) -> (r: Vec<u8>)
    ensures
        r@ == rendered(template@, port),
{
    let tok = port_token_bytes();
    let digits = decimal_bytes(port as u64);
    replace_bytes(template, tok.as_slice(), digits.as_slice())
}

/// File name of the rendered compose file for `port`: `docker-compose-<port>.yml`.
pub fn compose_file_name(port: u16) -> (r: Vec<u8>)
    ensures
        r@ == compose_prefix() + decimal(port as nat) + compose_suffix(),
{
    let mut r: Vec<u8> = vec![100u8, 111u8, 99u8, 107u8, 101u8, 114u8, 45u8, 99u8, 111u8, 109u8, 112u8, 111u8, 115u8, 101u8, 45u8];
    let mut digits = decimal_bytes(port as u64);
    let mut suffix: Vec<u8> = vec![46u8, 121u8, 109u8, 108u8];
    let ghost d = digits@;
    r.append(&mut digits);
    r.append(&mut suffix);
    assert(r@ =~= compose_prefix() + d + compose_suffix());
    r
}

/// URL of the node's RPC interface on the local host: `http://127.0.0.1:<port>`.
pub fn rpc_url(port: u16) -> (r: Vec<u8>)
    ensures
        r@ == url_prefix() + decimal(port as nat),
{
    let mut r: Vec<u8> = vec![104u8, 116u8, 116u8, 112u8, 58u8, 47u8, 47u8, 49u8, 50u8, 55u8, 46u8, 48u8, 46u8, 48u8, 46u8, 49u8, 58u8];
    let mut digits = decimal_bytes(port as u64);
    let ghost d = digits@;
    r.append(&mut digits);
    assert(r@ =~= url_prefix() + d);
    r
}

} // verus!
