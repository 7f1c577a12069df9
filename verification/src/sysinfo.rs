use vstd::prelude::*;

use crate::text::spec_trimmed;
use crate::text::trimmed;

verus! {

/// The system information report: the four identification values read
/// from the firmware, each trimmed and placed under its label, all
/// newline-separated.
pub open spec fn spec_system_information(
    product_name: Seq<char>,
    product_serial: Seq<char>,
    bios_vendor: Seq<char>,
    bios_version: Seq<char>,
) -> Seq<char> {
    "Product Name\n"@ + spec_trimmed(product_name) + "\nSerial Number\n"@ + spec_trimmed(
        product_serial,
    ) + "\nBIOS Vendor\n"@ + spec_trimmed(bios_vendor) + "\nBIOS Version\n"@ + spec_trimmed(
        bios_version,
    )
}

/// Format the query-mode report from the raw identification file
/// contents. This mode only reads; it never mutates any state.
pub fn system_information(
    product_name: &str,
    product_serial: &str,
    bios_vendor: &str,
    bios_version: &str,
) -> (r: String)
    ensures
        r@ == spec_system_information(product_name@, product_serial@, bios_vendor@, bios_version@),
{
    let mut r = String::from_str("Product Name\n");
    r.append(trimmed(product_name));
    r.append("\nSerial Number\n");
    r.append(trimmed(product_serial));
    r.append("\nBIOS Vendor\n");
    r.append(trimmed(bios_vendor));
    r.append("\nBIOS Version\n");
    r.append(trimmed(bios_version));
    proof {
        assert(r@ =~= spec_system_information(
            product_name@,
            product_serial@,
            bios_vendor@,
            bios_version@,
        ));
    }
    r
}

} // verus!
