//! The external record shapes: the flat card record exchanged with the
//! transport shell, and the field-level validation error.

use vstd::prelude::*;

use vstd::string::StringExecFns;

verus! {

/// The flat, untrusted card record: every field a string, absence
/// represented as the empty string.
#[derive(Clone, Debug, PartialEq)]
pub struct Card {
    pub id: String,
    pub customer_id: String,
    pub org_id: String,
    pub program_id: String,
    pub account_id: String,
    pub printed_name: String,
    pub password: String,
    pub expiration_date: String,
    pub issuing_date: String,
    pub pan: String,
    pub kind: String,
    pub status: String,
    pub cvv: String,
}

/// The text rendering of a card record, one field per line.
pub open spec fn card_text(c: Card) -> Seq<char> {
    "{\n"@ + "    id: "@ + c.id@ + ",\n"@ + "    customer_id: "@ + c.customer_id@ + ",\n"@
        + "    org_id: "@ + c.org_id@ + ",\n"@ + "    program_id: "@ + c.program_id@ + ",\n"@
        + "    account_id: "@ + c.account_id@ + ",\n"@ + "    printed_name: "@ + c.printed_name@
        + ",\n"@ + "    password: "@ + c.password@ + ",\n"@ + "    expiration_date: "@
        + c.expiration_date@ + ",\n"@ + "    issuing_date: "@ + c.issuing_date@ + ",\n"@
        + "    pan: "@ + c.pan@ + ",\n"@ + "    kind: "@ + c.kind@ + ",\n"@ + "    status: "@
        + c.status@ + ",\n"@ + "    cvv: "@ + c.cvv@ + ",\n"@ + "}\n"@
}

impl Card {
    /// Renders the record as readable text, one field per line.
    pub fn to_text(&self) -> (r: String)
        ensures
            r@ == card_text(*self),
    {
        let mut out = String::new();
        out.append("{\n");
        out.append("    id: ");
        out.append(self.id.as_str());
        out.append(",\n");
        out.append("    customer_id: ");
        out.append(self.customer_id.as_str());
        out.append(",\n");
        out.append("    org_id: ");
        out.append(self.org_id.as_str());
        out.append(",\n");
        out.append("    program_id: ");
        out.append(self.program_id.as_str());
        out.append(",\n");
        out.append("    account_id: ");
        out.append(self.account_id.as_str());
        out.append(",\n");
        out.append("    printed_name: ");
        out.append(self.printed_name.as_str());
        out.append(",\n");
        out.append("    password: ");
        out.append(self.password.as_str());
        out.append(",\n");
        out.append("    expiration_date: ");
        out.append(self.expiration_date.as_str());
        out.append(",\n");
        out.append("    issuing_date: ");
        out.append(self.issuing_date.as_str());
        out.append(",\n");
        out.append("    pan: ");
        out.append(self.pan.as_str());
        out.append(",\n");
        out.append("    kind: ");
        out.append(self.kind.as_str());
        out.append(",\n");
        out.append("    status: ");
        out.append(self.status.as_str());
        out.append(",\n");
        out.append("    cvv: ");
        out.append(self.cvv.as_str());
        out.append(",\n");
        out.append("}\n");
        assert(out@ =~= card_text(*self));
        out
    }
}

/// A client-input fault: names the first offending field and echoes its
/// raw input verbatim.
#[derive(Clone, Debug, PartialEq)]
pub struct ValidationError {
    pub field_name: String,
    pub inputted_value: String,
}

/// The message text of a validation error.
pub open spec fn validation_error_text(e: ValidationError) -> Seq<char> {
    "Value \""@ + e.inputted_value@ + "\" is not valid for field \""@ + e.field_name@ + "\""@
}

impl ValidationError {
    /// Builds an error naming `field_name` and echoing `inputted_value`.
    pub fn new(field_name: String, inputted_value: String) -> (r: ValidationError)
        ensures
            r.field_name@ == field_name@,
            r.inputted_value@ == inputted_value@,
    {
        ValidationError { field_name, inputted_value }
    }

    /// The name of the offending field.
    pub fn field_name(&self) -> (r: String)
        ensures
            r@ == self.field_name@,
    {
        self.field_name.clone()
    }

    /// The raw input that failed validation, echoed verbatim.
    pub fn inputted_value(&self) -> (r: String)
        ensures
            r@ == self.inputted_value@,
    {
        self.inputted_value.clone()
    }

    /// Renders the error as a readable message.
    pub fn message(&self) -> (r: String)
        ensures
            r@ == validation_error_text(*self),
    {
        let mut out = String::new();
        out.append("Value \"");
        out.append(self.inputted_value.as_str());
        out.append("\" is not valid for field \"");
        out.append(self.field_name.as_str());
        out.append("\"");
        assert(out@ =~= validation_error_text(*self));
        out
    }
}

} // verus!
