//! Where uploaded files go: the server's own storage, or a provider.

pub mod anonfiles;
pub mod catbox;
pub mod custom;
pub mod fileio;
pub mod local;
pub mod pixeldrain;

use crate::json::JsonValue;
use crate::text::{glue, same};
use vstd::prelude::*;
use vstd::string::*;

verus! {

/// Where a file was uploaded to.
pub struct UploadResult {
    pub url: String,
    pub provider: String,
}

/// The model of an [`UploadResult`]: the URL and the provider, or the failure.
pub open spec fn uploaded(r: Result<UploadResult, String>) -> Result<(Seq<char>, Seq<char>), Seq<char>> {
    match r {
        Ok(u) => Ok((u.url@, u.provider@)),
        Err(e) => Err(e@),
    }
}

/// What came back from a provider that answers with text.
pub enum TextReply {
    /// The request could not be sent.
    NotSent(String),
    /// The answer could not be read.
    NotRead(String),
    /// The answer.
    Read(String),
}

/// What came back from a provider that answers with JSON.
pub enum JsonReply {
    /// The request could not be sent.
    NotSent(String),
    /// The answer could not be parsed.
    NotParsed(String),
    /// The answer, and how it looks in a message.
    Parsed(JsonValue, String),
}

/// A provider.
#[derive(Clone, Copy, PartialEq, Eq, Structural)]
pub enum Provider {
    Catbox,
    Pixeldrain,
    FileIo,
    Anonfiles,
    Custom,
}

/// A provider of one's own.
pub struct CustomConfig {
    pub upload_url: String,
    pub upload_field_name: String,
    pub extra_headers: Vec<(String, String)>,
    pub response_url_jsonpath: String,
}

/// The provider that goes by a name.
pub open spec fn provider_named(name: Seq<char>) -> Result<Provider, Seq<char>> {
    if name == "local"@ {
        Err("Local uploads handled separately via handlers::media"@)
    } else if name == "catbox"@ {
        Ok(Provider::Catbox)
    } else if name == "pixeldrain"@ {
        Ok(Provider::Pixeldrain)
    } else if name == "fileio"@ {
        Ok(Provider::FileIo)
    } else if name == "anonfiles"@ {
        Ok(Provider::Anonfiles)
    } else if name == "custom"@ {
        Ok(Provider::Custom)
    } else {
        Err("Unknown media provider: "@ + name)
    }
}

/// The address that a file is uploaded to, and the name of the form field that
/// holds it.
pub open spec fn upload_target(provider: Provider, custom: CustomConfig) -> (Seq<char>, Seq<char>) {
    match provider {
        Provider::Catbox => ("https://catbox.moe/user/api.php"@, "fileToUpload"@),
        Provider::Pixeldrain => ("https://pixeldrain.com/api/file"@, "file"@),
        Provider::FileIo => ("https://file.io"@, "file"@),
        Provider::Anonfiles => ("https://api.anonfiles.com/upload"@, "file"@),
        Provider::Custom => (custom.upload_url@, custom.upload_field_name@),
    }
}

/// An upload that is to be made: to which provider, to which address, and in
/// which field of the form.
pub struct UploadTarget {
    pub provider: Provider,
    pub url: String,
    pub file_field: String,
}

/// The model of an upload that is to be made.
pub open spec fn target_of(r: Result<UploadTarget, String>) -> Result<
    (Provider, (Seq<char>, Seq<char>)),
    Seq<char>,
> {
    match r {
        Ok(t) => Ok((t.provider, (t.url@, t.file_field@))),
        Err(e) => Err(e@),
    }
}

/// Where the provider that goes by a name wants its files, or why there is none.
pub open spec fn targeted(name: Seq<char>, custom: CustomConfig) -> Result<
    (Provider, (Seq<char>, Seq<char>)),
    Seq<char>,
> {
    match provider_named(name) {
        Err(e) => Err(e),
        Ok(Provider::Custom) if custom.upload_url@.len() == 0 => Err(
            "Custom media provider upload_url not configured"@,
        ),
        Ok(p) => Ok((p, upload_target(p, custom))),
    }
}

/// Where the provider that goes by a name wants its files.
pub fn upload_to_provider(name: &str, custom: &CustomConfig) -> (res: Result<UploadTarget, String>)
    ensures
        target_of(res) == targeted(name@, *custom),
{
    let provider = if same(name, "local") {
        return Err("Local uploads handled separately via handlers::media".to_owned());
    } else if same(name, "catbox") {
        Provider::Catbox
    } else if same(name, "pixeldrain") {
        Provider::Pixeldrain
    } else if same(name, "fileio") {
        Provider::FileIo
    } else if same(name, "anonfiles") {
        Provider::Anonfiles
    } else if same(name, "custom") {
        Provider::Custom
    } else {
        return Err(glue("Unknown media provider: ", name));
    };
    if let Provider::Custom = provider {
        if custom.upload_url.as_str().unicode_len() == 0 {
            return Err("Custom media provider upload_url not configured".to_owned());
        }
    }
    let (url, field) = match provider {
        Provider::Catbox => ("https://catbox.moe/user/api.php", "fileToUpload"),
        Provider::Pixeldrain => ("https://pixeldrain.com/api/file", "file"),
        Provider::FileIo => ("https://file.io", "file"),
        Provider::Anonfiles => ("https://api.anonfiles.com/upload", "file"),
        Provider::Custom => (custom.upload_url.as_str(), custom.upload_field_name.as_str()),
    };
    Ok(UploadTarget { provider, url: url.to_owned(), file_field: field.to_owned() })
}

/// Each provider goes by its own name and gets its files at its own address; one's
/// own provider at the configured one, if there is one. No other name is one.
pub proof fn providers_go_by_their_names(name: Seq<char>, custom: CustomConfig)
    ensures
        name == "catbox"@ ==> targeted(name, custom) == Ok::<(Provider, (Seq<char>, Seq<char>)), Seq<char>>(
            (Provider::Catbox, ("https://catbox.moe/user/api.php"@, "fileToUpload"@)),
        ),
        name == "pixeldrain"@ ==> targeted(name, custom) == Ok::<(Provider, (Seq<char>, Seq<char>)), Seq<char>>(
            (Provider::Pixeldrain, ("https://pixeldrain.com/api/file"@, "file"@)),
        ),
        name == "fileio"@ ==> targeted(name, custom) == Ok::<(Provider, (Seq<char>, Seq<char>)), Seq<char>>(
            (Provider::FileIo, ("https://file.io"@, "file"@)),
        ),
        name == "anonfiles"@ ==> targeted(name, custom) == Ok::<(Provider, (Seq<char>, Seq<char>)), Seq<char>>(
            (Provider::Anonfiles, ("https://api.anonfiles.com/upload"@, "file"@)),
        ),
        name == "custom"@ && custom.upload_url@.len() > 0 ==> targeted(name, custom) == Ok::<
            (Provider, (Seq<char>, Seq<char>)),
            Seq<char>,
        >((Provider::Custom, (custom.upload_url@, custom.upload_field_name@))),
        name == "custom"@ && custom.upload_url@.len() == 0 ==> targeted(name, custom) is Err,
        name != "catbox"@ && name != "pixeldrain"@ && name != "fileio"@ && name != "anonfiles"@ && name
            != "custom"@ ==> targeted(name, custom) is Err,
{
    reveal_strlit("local");
    reveal_strlit("catbox");
    reveal_strlit("pixeldrain");
    reveal_strlit("fileio");
    reveal_strlit("anonfiles");
    reveal_strlit("custom");
    assert("local"@.len() == 5 && "catbox"@.len() == 6 && "pixeldrain"@.len() == 10 && "fileio"@.len() == 6
        && "anonfiles"@.len() == 9 && "custom"@.len() == 6);
    assert("catbox"@[1] == 'a' && "fileio"@[0] == 'f' && "custom"@[1] == 'u');
}

} // verus!
