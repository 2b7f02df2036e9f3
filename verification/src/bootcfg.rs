//! The bootloader's configuration file.

use crate::config::KitConfig;
use crate::model;
use vstd::prelude::*;

verus! {

/// The text of the boot configuration: a timeout, a default entry, and one
/// menu entry that names the boot protocol, the kernel's path and the
/// kernel's command line.
pub fn boot_config(config: &KitConfig) -> (text: String)
    ensures
        text@ == model::boot_config(config@),
{
    let mut text = String::from_str(
        "\nTIMEOUT=3\nDEFAULT_ENTRY=1\nGRAPHICS=yes\nVERBOSE=yes\n:Linux\n\nPROTOCOL=",
    );
    text.append(config.boot_protocol.as_str());
    text.append("\nKERNEL_PATH=");
    text.append(config.kernel.as_str());
    text.append("\nKERNEL_CMDLINE=");
    text.append(config.cmdline.as_str());
    text.append("\n            ");
    text
}

} // verus!
