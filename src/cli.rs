//! The command-line client's commands and their arguments.
use vstd::prelude::*;

verus! {

/// A command of the client.
#[derive(Debug)]
pub enum Command {
    /// Configures the client to work with a server.
    Conf(ConfigArgs),
    /// Lists the available files.
    Ls(ListArgs),
    /// Uploads files.
    Put(PutArgs),
    /// Downloads files.
    Get(GetArgs),
}

/// Arguments of `conf`.
#[derive(Debug)]
pub struct ConfigArgs {
    /// The server's address; asked for when absent.
    pub server_url: Option<String>,
}

/// Arguments of `ls`.
#[derive(Debug)]
pub struct ListArgs {
    /// A key phrase to list the files of a private storage.
    pub key_phrase: Option<String>,
}

/// Arguments of `put`.
#[derive(Debug)]
pub struct PutArgs {
    /// A key phrase to put the files into a private storage.
    pub key_phrase: Option<String>,
    /// Paths of the files to upload.
    pub file_list: Vec<String>,
}

/// Arguments of `get`.
#[derive(Debug)]
pub struct GetArgs {
    /// A key phrase to get the files from a private storage.
    pub key_phrase: Option<String>,
    /// Names of the files to download.
    pub file_list: Vec<String>,
}

/// A stored server address: an empty one means the client is not configured.
pub fn check_configuration(conf: String) -> (r: Result<String, String>)
    ensures
        conf@.len() == 0 <==> r is Err,
        r matches Err(e) ==> e@ == "Configuration file is empty"@,
        r matches Ok(c) ==> c == conf,
{
    if conf.as_str().is_empty() {
        Err("Configuration file is empty".to_owned())
    } else {
        Ok(conf)
    }
}

} // verus!
