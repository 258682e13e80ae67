//! Compliance operations: registering, updating and removing the
//! pluggable on-chain modules that are evaluated before a token transfer
//! is permitted.
//!
//! Each operation constructs exactly one message variant — pinned down
//! character by character by a specification function — and delegates
//! unchanged to the shared execution pipeline, addressed to the
//! compliance contract.

use vstd::prelude::*;

pub mod request;

verus! {

use crate::compliance::request::ComplianceModuleRequest;
use crate::error::RwaError;
use crate::json::{push_json_string, spec_json_string};
use crate::{AccountInfo, PreparedTx, RwaClient};

/// The message registering a compliance module for the token.
pub open spec fn spec_add_compliance_module_json(
    token_address: Seq<char>,
    module_address: Seq<char>,
    module_name: Seq<char>,
) -> Seq<char> {
    "{\"AddComplianceModule\":{\"token_address\":"@ + spec_json_string(token_address)
        + ",\"module_address\":"@ + spec_json_string(module_address) + ",\"module_name\":"@
        + spec_json_string(module_name) + "}}"@
}

/// The message removing a compliance module from the token.
pub open spec fn spec_remove_compliance_module_json(
    token_address: Seq<char>,
    module_address: Seq<char>,
) -> Seq<char> {
    "{\"RemoveComplianceModule\":{\"token_address\":"@ + spec_json_string(token_address)
        + ",\"module_address\":"@ + spec_json_string(module_address) + "}}"@
}

/// The message switching a compliance module on or off.
pub open spec fn spec_update_compliance_module_json(
    token_address: Seq<char>,
    module_address: Seq<char>,
    active: bool,
) -> Seq<char> {
    "{\"UpdateComplianceModule\":{\"token_address\":"@ + spec_json_string(token_address)
        + ",\"module_address\":"@ + spec_json_string(module_address) + ",\"active\":"@ + (if active {
        "true"@
    } else {
        "false"@
    }) + "}}"@
}

pub fn add_compliance_module_json(
    token_address: &str,
    module_address: &str,
    module_name: &str,
) -> (r: String)
    ensures
        r@ == spec_add_compliance_module_json(token_address@, module_address@, module_name@),
{
    let mut out = String::new();
    out.append("{\"AddComplianceModule\":{\"token_address\":");
    push_json_string(&mut out, token_address);
    out.append(",\"module_address\":");
    push_json_string(&mut out, module_address);
    out.append(",\"module_name\":");
    push_json_string(&mut out, module_name);
    out.append("}}");
    proof {
        assert(out@ =~= spec_add_compliance_module_json(
            token_address@,
            module_address@,
            module_name@,
        ));
    }
    out
}

pub fn remove_compliance_module_json(token_address: &str, module_address: &str) -> (r: String)
    ensures
        r@ == spec_remove_compliance_module_json(token_address@, module_address@),
{
    let mut out = String::new();
    out.append("{\"RemoveComplianceModule\":{\"token_address\":");
    push_json_string(&mut out, token_address);
    out.append(",\"module_address\":");
    push_json_string(&mut out, module_address);
    out.append("}}");
    proof {
        assert(out@ =~= spec_remove_compliance_module_json(token_address@, module_address@));
    }
    out
}

pub fn update_compliance_module_json(
    token_address: &str,
    module_address: &str,
    active: bool,
) -> (r: String)
    ensures
        r@ == spec_update_compliance_module_json(token_address@, module_address@, active),
{
    let mut out = String::new();
    out.append("{\"UpdateComplianceModule\":{\"token_address\":");
    push_json_string(&mut out, token_address);
    out.append(",\"module_address\":");
    push_json_string(&mut out, module_address);
    out.append(",\"active\":");
    if active {
        out.append("true");
    } else {
        out.append("false");
    }
    out.append("}}");
    proof {
        assert(out@ =~= spec_update_compliance_module_json(
            token_address@,
            module_address@,
            active,
        ));
    }
    out
}

impl RwaClient {
    /// Registers a new compliance module under the given name for the
    /// configured token.
    pub fn add_compliance_module(
        &self,
        module_name: &str,
        request: ComplianceModuleRequest,
        account: AccountInfo,
    ) -> (r: Result<PreparedTx, RwaError>)
        ensures
            r matches Ok(p) ==> self.spec_prepared(
                p,
                request.from@,
                spec_add_compliance_module_json(
                    self.spec_token_address(),
                    request.module_addr@,
                    module_name@,
                ),
                self.spec_compliance_address(),
                Seq::<crate::Coin>::empty(),
                request.gas_limit,
                account,
            ),
            self.spec_write_errors(r),
    {
        let msg = add_compliance_module_json(
            self.token_address.as_str(),
            request.module_addr.as_str(),
            module_name,
        );
        self.execute(
            request.from.as_str(),
            msg,
            self.compliance_address.clone(),
            crate::no_funds(),
            &request.signer,
            request.gas_limit,
            account,
        )
    }

    /// Removes a compliance module from the configured token.
    pub fn remove_compliance_module(
        &self,
        request: ComplianceModuleRequest,
        account: AccountInfo,
    ) -> (r: Result<PreparedTx, RwaError>)
        ensures
            r matches Ok(p) ==> self.spec_prepared(
                p,
                request.from@,
                spec_remove_compliance_module_json(
                    self.spec_token_address(),
                    request.module_addr@,
                ),
                self.spec_compliance_address(),
                Seq::<crate::Coin>::empty(),
                request.gas_limit,
                account,
            ),
            self.spec_write_errors(r),
    {
        let msg = remove_compliance_module_json(
            self.token_address.as_str(),
            request.module_addr.as_str(),
        );
        self.execute(
            request.from.as_str(),
            msg,
            self.compliance_address.clone(),
            crate::no_funds(),
            &request.signer,
            request.gas_limit,
            account,
        )
    }

    /// Switches a compliance module of the configured token on or off.
    pub fn update_compliance_module(
        &self,
        request: ComplianceModuleRequest,
        active: bool,
        account: AccountInfo,
    ) -> (r: Result<PreparedTx, RwaError>)
        ensures
            r matches Ok(p) ==> self.spec_prepared(
                p,
                request.from@,
                spec_update_compliance_module_json(
                    self.spec_token_address(),
                    request.module_addr@,
                    active,
                ),
                self.spec_compliance_address(),
                Seq::<crate::Coin>::empty(),
                request.gas_limit,
                account,
            ),
            self.spec_write_errors(r),
    {
        let msg = update_compliance_module_json(
            self.token_address.as_str(),
            request.module_addr.as_str(),
            active,
        );
        self.execute(
            request.from.as_str(),
            msg,
            self.compliance_address.clone(),
            crate::no_funds(),
            &request.signer,
            request.gas_limit,
            account,
        )
    }
}

} // verus!
