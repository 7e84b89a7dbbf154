//! The subcommands of the client.
use vstd::prelude::*;
use vstd::string::StringExecFns;

verus! {

/// What the client is asked to do.
#[derive(Clone, Copy, Debug, PartialEq, Eq)]
pub enum Subcommand {
    Source,
    Signup,
    Login,
    MyUploads,
    Download,
    Upload,
    Delete,
    Share,
    /// A name that is no subcommand.
    Unknown,
}

/// The subcommand that the name given on the command line selects.
pub open spec fn spec_subcommand(name: Seq<char>) -> Subcommand {
    if name == "source"@ {
        Subcommand::Source
    } else if name == "signup"@ {
        Subcommand::Signup
    } else if name == "login"@ {
        Subcommand::Login
    } else if name == "myuploads"@ {
        Subcommand::MyUploads
    } else if name == "download"@ {
        Subcommand::Download
    } else if name == "upload"@ {
        Subcommand::Upload
    } else if name == "delete"@ {
        Subcommand::Delete
    } else if name == "share"@ {
        Subcommand::Share
    } else {
        Subcommand::Unknown
    }
}

fn same_text(a: &String, b: &str) -> (same: bool)
    ensures
        same == (a@ == b@),
{
    let b = String::from_str(b);
    *a == b
}

/// Selects the subcommand by its name.
pub fn subcommand(name: &str) -> (cmd: Subcommand)
    ensures
        cmd == spec_subcommand(name@),
        cmd == Subcommand::Upload <==> name@ == "upload"@,
        cmd == Subcommand::Download <==> name@ == "download"@,
        cmd == Subcommand::Login <==> name@ == "login"@,
        cmd == Subcommand::Signup <==> name@ == "signup"@,
{
    proof {
        lemma_names_select(name@);
    }
    let name = String::from_str(name);
    if same_text(&name, "source") {
        Subcommand::Source
    } else if same_text(&name, "signup") {
        Subcommand::Signup
    } else if same_text(&name, "login") {
        Subcommand::Login
    } else if same_text(&name, "myuploads") {
        Subcommand::MyUploads
    } else if same_text(&name, "download") {
        Subcommand::Download
    } else if same_text(&name, "upload") {
        Subcommand::Upload
    } else if same_text(&name, "delete") {
        Subcommand::Delete
    } else if same_text(&name, "share") {
        Subcommand::Share
    } else {
        Subcommand::Unknown
    }
}

/// Each subcommand is selected by its own name and by no other; every other name selects
/// none.
pub proof fn lemma_names_select(name: Seq<char>)
    ensures
        spec_subcommand(name) == Subcommand::Source <==> name == "source"@,
        spec_subcommand(name) == Subcommand::Signup <==> name == "signup"@,
        spec_subcommand(name) == Subcommand::Login <==> name == "login"@,
        spec_subcommand(name) == Subcommand::MyUploads <==> name == "myuploads"@,
        spec_subcommand(name) == Subcommand::Download <==> name == "download"@,
        spec_subcommand(name) == Subcommand::Upload <==> name == "upload"@,
        spec_subcommand(name) == Subcommand::Delete <==> name == "delete"@,
        spec_subcommand(name) == Subcommand::Share <==> name == "share"@,
{
    reveal_strlit("source");
    reveal_strlit("signup");
    reveal_strlit("login");
    reveal_strlit("myuploads");
    reveal_strlit("download");
    reveal_strlit("upload");
    reveal_strlit("delete");
    reveal_strlit("share");
    assert("source"@.len() == 6 && "signup"@.len() == 6 && "upload"@.len() == 6 && "delete"@.len() == 6);
    assert("login"@.len() == 5 && "share"@.len() == 5 && "download"@.len() == 8 && "myuploads"@.len() == 9);
    assert("source"@[1] != "signup"@[1]);
    assert("source"@[0] != "upload"@[0]);
    assert("signup"@[0] != "upload"@[0]);
    assert("delete"@[0] != "source"@[0]);
    assert("delete"@[0] != "signup"@[0]);
    assert("delete"@[0] != "upload"@[0]);
    assert("login"@[0] != "share"@[0]);
}

} // verus!
