//! The launcher script: a fixed module for the host's entry point with the
//! executable's bytes, as base64 text, at its single substitution point.

use crate::codec::{decode_spec, encode_spec, is_symbol, lemma_decode_encode, standard_encode};
use vstd::prelude::*;
use vstd::string::StringExecFns;

verus! {

/// Name of the script file in the staging directory.
pub const ENTRYPOINT_FILE: &'static str = "index.js";

/// The script up to the opening quote of the payload literal.
pub const LAUNCHER_HEAD: &'static str = "import { writeFileSync, chmodSync } from 'fs';
import { createRequire } from 'module';
import { execSync } from 'child_process';

const TRAP_BIN = Buffer.from('";

/// The script from the closing quote of the payload literal on. On load it
/// writes the bytes to a scratch path, marks it executable and runs it once
/// with the standard streams inherited.
pub const LAUNCHER_TAIL: &'static str = "', 'base64');

@GenezioDeploy()
export class Service {
  constructor() {
    writeFileSync('/tmp/trap', TRAP_BIN);
    chmodSync('/tmp/trap', '755');

    console.log('trap start time', Date.now());
    execSync('/tmp/trap', { stdio: 'inherit' });
  }

  @GenezioMethod()
  async call() { }
}";

/// The script that carries `bytes`.
pub open spec fn launcher_spec(bytes: Seq<u8>) -> Seq<char> {
    LAUNCHER_HEAD@ + encode_spec(bytes) + LAUNCHER_TAIL@
}

/// A character that would end the payload's string literal or the statement
/// that holds it.
pub open spec fn breaks_payload_literal(c: char) -> bool {
    c == '\'' || c == '"' || c == '`' || c == '\\' || c == '\n' || c == '\r' || c == ';'
}

/// The launcher script for an executable with the given bytes; the same bytes
/// always give the same script.
pub fn launcher_script(bytes: &[u8]) -> (r: String)
    requires
        bytes@.len() <= isize::MAX as int,
    ensures
        r@ == launcher_spec(bytes@),
{
    let payload = standard_encode(bytes);
    let mut script = String::from_str(LAUNCHER_HEAD);
    script.append(payload.as_str());
    script.append(LAUNCHER_TAIL);
    script
}

/// The encoded payload never holds a character that ends the string literal
/// or the statement it is substituted into, so it is embedded as it is, for
/// every byte string.
pub proof fn lemma_payload_embeddable(bytes: Seq<u8>)
    ensures
        forall|i: int|
            0 <= i < encode_spec(bytes).len() ==> !breaks_payload_literal(
                #[trigger] encode_spec(bytes)[i],
            ),
{
    lemma_decode_encode(bytes);
    assert forall|i: int| 0 <= i < encode_spec(bytes).len() implies !breaks_payload_literal(
        #[trigger] encode_spec(bytes)[i],
    ) by {
        let c = encode_spec(bytes)[i];
        assert(is_symbol(c) || c == '=');
    }
}

/// The text of a script between its fixed head and tail is the payload, and
/// decoding it gives back the executable's bytes.
pub proof fn lemma_script_payload(bytes: Seq<u8>)
    ensures
        launcher_spec(bytes).subrange(
            LAUNCHER_HEAD@.len() as int,
            launcher_spec(bytes).len() - LAUNCHER_TAIL@.len(),
        ) == encode_spec(bytes),
        decode_spec(
            launcher_spec(bytes).subrange(
                LAUNCHER_HEAD@.len() as int,
                launcher_spec(bytes).len() - LAUNCHER_TAIL@.len(),
            ),
        ) == bytes,
{
    lemma_decode_encode(bytes);
    assert(launcher_spec(bytes).subrange(
        LAUNCHER_HEAD@.len() as int,
        launcher_spec(bytes).len() - LAUNCHER_TAIL@.len(),
    ) =~= encode_spec(bytes));
}

} // verus!
