use crate::addr::{parse_ipv6, segments_nat};
use crate::addr_fmt::{push_hex_groups, segments, zero_run_len};
use crate::error::{ErrorKind, NmstateError};
use crate::ip::model::{token_canonical, token_is_set};
use crate::text::{str_eq, to_chars};
use vstd::prelude::*;

verus! {

/// Whether a token asks for more than the default: it is neither empty
/// nor `::`.
pub fn is_token_set(token: &str) -> (r: bool)
    ensures
        r == token_is_set(token@),
{
    proof {
        reveal_strlit("");
        reveal_strlit("::");
        assert("::"@ =~= seq![':', ':']);
        if token@.len() == 0 {
            assert(token@ =~= ""@);
        }
    }
    !(str_eq(token, "") || str_eq(token, "::"))
}

/// Brings the text of an identifier token to its canonical form: `::`
/// for the empty text, else `::` and the last 64 bits in hexadecimal
/// groups, without the zero groups in front.
pub fn sanitize_ipv6_token_to_string(token: &mut String) -> (r: Result<(), NmstateError>)
    ensures
        match token_canonical(old(token)@) {
            Some(c) => r is Ok && final(token)@ == c,
            None => r is Err && r->Err_0.kind() == ErrorKind::InvalidArgument && final(token)@
                == old(token)@,
        },
{
    proof {
        reveal_strlit("::");
        assert("::"@ =~= seq![':', ':']);
    }
    let chars = to_chars(token.as_str());
    if chars.len() == 0 {
        *token = "::".to_owned();
        return Ok(());
    }
    match parse_ipv6(chars.as_slice()) {
        Some(v) => {
            if v >= 0x1_0000_0000_0000_0000 {
                return Err(
                    NmstateError::with_text(
                        ErrorKind::InvalidArgument,
                        "Desired IPv6 token should be lead by 64 bits 0",
                    ),
                );
            }
            let g = segments(v);
            let ghost all = segments_nat(g@);
            let mut k: usize = 0;
            while k < 8 && g[k] == 0
                invariant
                    k <= 8,
                    g@.len() == 8,
                    all == segments_nat(g@),
                    zero_run_len(all, 0) == k + zero_run_len(all, k as int),
                decreases 8 - k,
            {
                k += 1;
            }
            let mut text = "::".to_owned();
            push_hex_groups(&mut text, &g, k, 8);
            proof {
                assert(all.subrange(k as int, 8) =~= all.skip(k as int));
            }
            *token = text;
            Ok(())
        },
        None => Err(
            NmstateError::with_text(
                ErrorKind::InvalidArgument,
                "Desired IPv6 token is not a valid IPv6 address",
            ),
        ),
    }
}

} // verus!
