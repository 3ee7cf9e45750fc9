//! The enumerated vocabularies: closed sets of named symbolic constants
//! with bidirectional lookup between symbol and canonical spelling.

use vstd::prelude::*;

use crate::util::str_eq;

verus! {

/// The closed vocabulary of recognized input sources. Every symbol has
/// exactly one canonical spelling; the mapping in each direction is total
/// over the closed set and rejects everything outside it.
#[derive(Debug, Copy, Clone, Eq, PartialEq, Hash, Structural)]
pub enum InputType {
    /// Combined size of all request parameters, files excluded.
    ArgsCombinedSize,
    /// Query string parameters only.
    ArgsGet,
    /// Names of query string parameters only.
    ArgsGetNames,
    /// Arguments from the POST body.
    ArgsPost,
    /// Names of request body parameters only.
    ArgsPostNames,
    /// Query string and POST body arguments together.
    Args,
    /// Names of query string and POST body arguments together.
    ArgsNames,
    /// Milliseconds elapsed since the beginning of the transaction.
    Duration,
    /// Total size of the files carried in the request body.
    FilesCombinedSize,
    /// Form fields that were used for file upload.
    FilesNames,
    /// Original file names as they were called on the remote filesystem.
    Files,
    /// Geographical fields looked up from an IP address or hostname.
    Geo,
    /// The IP collection.
    Ip,
    /// Value of the most recently matched variable.
    MatchedVar,
    /// Full name of the variable that was matched against.
    MatchedVarName,
    /// All matches of the current operator check.
    MatchedVars,
    /// Names of all matches of the current operator check.
    MatchedVarsNames,
    /// Part headers found within a multipart request body.
    MultipartPartHeaders,
    /// The raw query string part of the request URI.
    QueryString,
    /// IP address of the remote client.
    RemoteAddr,
    /// Name of the request body processor in use.
    ReqBodyProcessor,
    /// Filename part of the request filename.
    RequestBasename,
    /// The raw request body.
    RequestBody,
    /// Names of all request cookies.
    RequestCookiesNames,
    /// Values of all request cookies.
    RequestCookies,
    /// Relative request URL without the query string part.
    RequestFilename,
    /// Names of all request headers.
    RequestHeadersNames,
    /// All request headers, or selected headers by name.
    RequestHeaders,
    /// The complete request line sent to the server.
    RequestLine,
    /// The request method of the transaction.
    RequestMethod,
    /// The request protocol version information.
    RequestProtocol,
    /// The full request URL including the query string.
    RequestUri,
    /// Like the request URI but keeping the domain name when given.
    RequestUriRaw,
    /// The response body, when response body buffering is enabled.
    ResponseBody,
    /// The HTTP response status code.
    ResponseStatus,
    /// The transient transaction collection.
    Tx,
    /// The unique request token.
    UniqueId,
    /// The collection used to interact with the XML parser.
    Xml,
}

impl InputType {
    /// The canonical spelling of each symbol.
    pub open spec fn spec_name(self) -> Seq<char> {
        match self {
            InputType::ArgsCombinedSize => "ARGS_COMBINED_SIZE"@,
            InputType::ArgsGet => "ARGS_GET"@,
            InputType::ArgsGetNames => "ARGS_GET_NAMES"@,
            InputType::ArgsPost => "ARGS_POST"@,
            InputType::ArgsPostNames => "ARGS_POST_NAMES"@,
            InputType::Args => "ARGS"@,
            InputType::ArgsNames => "ARGS_NAMES"@,
            InputType::Duration => "DURATION"@,
            InputType::FilesCombinedSize => "FILES_COMBINED_SIZE"@,
            InputType::FilesNames => "FILES_NAMES"@,
            InputType::Files => "FILES"@,
            InputType::Geo => "GEO"@,
            InputType::Ip => "IP"@,
            InputType::MatchedVar => "MATCHED_VAR"@,
            InputType::MatchedVarName => "MATCHED_VAR_NAME"@,
            InputType::MatchedVars => "MATCHED_VARS"@,
            InputType::MatchedVarsNames => "MATCHED_VARS_NAMES"@,
            InputType::MultipartPartHeaders => "MULTIPART_PART_HEADERS"@,
            InputType::QueryString => "QUERY_STRING"@,
            InputType::RemoteAddr => "REMOTE_ADDR"@,
            InputType::ReqBodyProcessor => "REQBODY_PROCESSOR"@,
            InputType::RequestBasename => "REQUEST_BASENAME"@,
            InputType::RequestBody => "REQUEST_BODY"@,
            InputType::RequestCookiesNames => "REQUEST_COOKIES_NAMES"@,
            InputType::RequestCookies => "REQUEST_COOKIES"@,
            InputType::RequestFilename => "REQUEST_FILENAME"@,
            InputType::RequestHeadersNames => "REQUEST_HEADERS_NAMES"@,
            InputType::RequestHeaders => "REQUEST_HEADERS"@,
            InputType::RequestLine => "REQUEST_LINE"@,
            InputType::RequestMethod => "REQUEST_METHOD"@,
            InputType::RequestProtocol => "REQUEST_PROTOCOL"@,
            InputType::RequestUri => "REQUEST_URI"@,
            InputType::RequestUriRaw => "REQUEST_URI_RAW"@,
            InputType::ResponseBody => "RESPONSE_BODY"@,
            InputType::ResponseStatus => "RESPONSE_STATUS"@,
            InputType::Tx => "TX"@,
            InputType::UniqueId => "UNIQUE_ID"@,
            InputType::Xml => "XML"@,
        }
    }

    /// The symbol spelled exactly `s`, if any: case-sensitive, no trimming,
    /// no partial match.
    #[verifier::opaque]
    pub open spec fn spec_from_name(s: Seq<char>) -> Option<InputType> {
        if s.len() == 18 && s == "ARGS_COMBINED_SIZE"@ {
            Some(InputType::ArgsCombinedSize)
        } else if s.len() == 8 && s == "ARGS_GET"@ {
            Some(InputType::ArgsGet)
        } else if s.len() == 14 && s == "ARGS_GET_NAMES"@ {
            Some(InputType::ArgsGetNames)
        } else if s.len() == 9 && s == "ARGS_POST"@ {
            Some(InputType::ArgsPost)
        } else if s.len() == 15 && s == "ARGS_POST_NAMES"@ {
            Some(InputType::ArgsPostNames)
        } else if s.len() == 4 && s == "ARGS"@ {
            Some(InputType::Args)
        } else if s.len() == 10 && s == "ARGS_NAMES"@ {
            Some(InputType::ArgsNames)
        } else if s.len() == 8 && s == "DURATION"@ {
            Some(InputType::Duration)
        } else if s.len() == 19 && s == "FILES_COMBINED_SIZE"@ {
            Some(InputType::FilesCombinedSize)
        } else if s.len() == 11 && s == "FILES_NAMES"@ {
            Some(InputType::FilesNames)
        } else if s.len() == 5 && s == "FILES"@ {
            Some(InputType::Files)
        } else if s.len() == 3 && s == "GEO"@ {
            Some(InputType::Geo)
        } else if s.len() == 2 && s == "IP"@ {
            Some(InputType::Ip)
        } else if s.len() == 11 && s == "MATCHED_VAR"@ {
            Some(InputType::MatchedVar)
        } else if s.len() == 16 && s == "MATCHED_VAR_NAME"@ {
            Some(InputType::MatchedVarName)
        } else if s.len() == 12 && s == "MATCHED_VARS"@ {
            Some(InputType::MatchedVars)
        } else if s.len() == 18 && s == "MATCHED_VARS_NAMES"@ {
            Some(InputType::MatchedVarsNames)
        } else if s.len() == 22 && s == "MULTIPART_PART_HEADERS"@ {
            Some(InputType::MultipartPartHeaders)
        } else if s.len() == 12 && s == "QUERY_STRING"@ {
            Some(InputType::QueryString)
        } else if s.len() == 11 && s == "REMOTE_ADDR"@ {
            Some(InputType::RemoteAddr)
        } else if s.len() == 17 && s == "REQBODY_PROCESSOR"@ {
            Some(InputType::ReqBodyProcessor)
        } else if s.len() == 16 && s == "REQUEST_BASENAME"@ {
            Some(InputType::RequestBasename)
        } else if s.len() == 12 && s == "REQUEST_BODY"@ {
            Some(InputType::RequestBody)
        } else if s.len() == 21 && s == "REQUEST_COOKIES_NAMES"@ {
            Some(InputType::RequestCookiesNames)
        } else if s.len() == 15 && s == "REQUEST_COOKIES"@ {
            Some(InputType::RequestCookies)
        } else if s.len() == 16 && s == "REQUEST_FILENAME"@ {
            Some(InputType::RequestFilename)
        } else if s.len() == 21 && s == "REQUEST_HEADERS_NAMES"@ {
            Some(InputType::RequestHeadersNames)
        } else if s.len() == 15 && s == "REQUEST_HEADERS"@ {
            Some(InputType::RequestHeaders)
        } else if s.len() == 12 && s == "REQUEST_LINE"@ {
            Some(InputType::RequestLine)
        } else if s.len() == 14 && s == "REQUEST_METHOD"@ {
            Some(InputType::RequestMethod)
        } else if s.len() == 16 && s == "REQUEST_PROTOCOL"@ {
            Some(InputType::RequestProtocol)
        } else if s.len() == 11 && s == "REQUEST_URI"@ {
            Some(InputType::RequestUri)
        } else if s.len() == 15 && s == "REQUEST_URI_RAW"@ {
            Some(InputType::RequestUriRaw)
        } else if s.len() == 13 && s == "RESPONSE_BODY"@ {
            Some(InputType::ResponseBody)
        } else if s.len() == 15 && s == "RESPONSE_STATUS"@ {
            Some(InputType::ResponseStatus)
        } else if s.len() == 2 && s == "TX"@ {
            Some(InputType::Tx)
        } else if s.len() == 9 && s == "UNIQUE_ID"@ {
            Some(InputType::UniqueId)
        } else if s.len() == 3 && s == "XML"@ {
            Some(InputType::Xml)
        } else {
            None
        }
    }

    /// Every symbol, in declaration order.
    pub open spec fn spec_variants() -> Seq<InputType> {
        seq![
            InputType::ArgsCombinedSize,
            InputType::ArgsGet,
            InputType::ArgsGetNames,
            InputType::ArgsPost,
            InputType::ArgsPostNames,
            InputType::Args,
            InputType::ArgsNames,
            InputType::Duration,
            InputType::FilesCombinedSize,
            InputType::FilesNames,
            InputType::Files,
            InputType::Geo,
            InputType::Ip,
            InputType::MatchedVar,
            InputType::MatchedVarName,
            InputType::MatchedVars,
            InputType::MatchedVarsNames,
            InputType::MultipartPartHeaders,
            InputType::QueryString,
            InputType::RemoteAddr,
            InputType::ReqBodyProcessor,
            InputType::RequestBasename,
            InputType::RequestBody,
            InputType::RequestCookiesNames,
            InputType::RequestCookies,
            InputType::RequestFilename,
            InputType::RequestHeadersNames,
            InputType::RequestHeaders,
            InputType::RequestLine,
            InputType::RequestMethod,
            InputType::RequestProtocol,
            InputType::RequestUri,
            InputType::RequestUriRaw,
            InputType::ResponseBody,
            InputType::ResponseStatus,
            InputType::Tx,
            InputType::UniqueId,
            InputType::Xml,
        ]
    }

    /// The canonical spelling of this symbol. Total: every symbol has one.
    pub fn name(&self) -> (r: &'static str)
        ensures
            r@ == self.spec_name(),
    {
        match self {
            InputType::ArgsCombinedSize => "ARGS_COMBINED_SIZE",
            InputType::ArgsGet => "ARGS_GET",
            InputType::ArgsGetNames => "ARGS_GET_NAMES",
            InputType::ArgsPost => "ARGS_POST",
            InputType::ArgsPostNames => "ARGS_POST_NAMES",
            InputType::Args => "ARGS",
            InputType::ArgsNames => "ARGS_NAMES",
            InputType::Duration => "DURATION",
            InputType::FilesCombinedSize => "FILES_COMBINED_SIZE",
            InputType::FilesNames => "FILES_NAMES",
            InputType::Files => "FILES",
            InputType::Geo => "GEO",
            InputType::Ip => "IP",
            InputType::MatchedVar => "MATCHED_VAR",
            InputType::MatchedVarName => "MATCHED_VAR_NAME",
            InputType::MatchedVars => "MATCHED_VARS",
            InputType::MatchedVarsNames => "MATCHED_VARS_NAMES",
            InputType::MultipartPartHeaders => "MULTIPART_PART_HEADERS",
            InputType::QueryString => "QUERY_STRING",
            InputType::RemoteAddr => "REMOTE_ADDR",
            InputType::ReqBodyProcessor => "REQBODY_PROCESSOR",
            InputType::RequestBasename => "REQUEST_BASENAME",
            InputType::RequestBody => "REQUEST_BODY",
            InputType::RequestCookiesNames => "REQUEST_COOKIES_NAMES",
            InputType::RequestCookies => "REQUEST_COOKIES",
            InputType::RequestFilename => "REQUEST_FILENAME",
            InputType::RequestHeadersNames => "REQUEST_HEADERS_NAMES",
            InputType::RequestHeaders => "REQUEST_HEADERS",
            InputType::RequestLine => "REQUEST_LINE",
            InputType::RequestMethod => "REQUEST_METHOD",
            InputType::RequestProtocol => "REQUEST_PROTOCOL",
            InputType::RequestUri => "REQUEST_URI",
            InputType::RequestUriRaw => "REQUEST_URI_RAW",
            InputType::ResponseBody => "RESPONSE_BODY",
            InputType::ResponseStatus => "RESPONSE_STATUS",
            InputType::Tx => "TX",
            InputType::UniqueId => "UNIQUE_ID",
            InputType::Xml => "XML",
        }
    }

    /// The symbol whose canonical spelling is exactly `s`, or nothing. This
    /// is the single place where an unknown input-source token is detected.
    pub fn from_name(s: &str) -> (r: Option<InputType>)
        ensures
            r == Self::spec_from_name(s@),
    {
        proof {
            reveal(InputType::spec_from_name);
            reveal_strlit("ARGS_COMBINED_SIZE");
            reveal_strlit("ARGS_GET");
            reveal_strlit("ARGS_GET_NAMES");
            reveal_strlit("ARGS_POST");
            reveal_strlit("ARGS_POST_NAMES");
            reveal_strlit("ARGS");
            reveal_strlit("ARGS_NAMES");
            reveal_strlit("DURATION");
            reveal_strlit("FILES_COMBINED_SIZE");
            reveal_strlit("FILES_NAMES");
            reveal_strlit("FILES");
            reveal_strlit("GEO");
            reveal_strlit("IP");
            reveal_strlit("MATCHED_VAR");
            reveal_strlit("MATCHED_VAR_NAME");
            reveal_strlit("MATCHED_VARS");
            reveal_strlit("MATCHED_VARS_NAMES");
            reveal_strlit("MULTIPART_PART_HEADERS");
            reveal_strlit("QUERY_STRING");
            reveal_strlit("REMOTE_ADDR");
            reveal_strlit("REQBODY_PROCESSOR");
            reveal_strlit("REQUEST_BASENAME");
            reveal_strlit("REQUEST_BODY");
            reveal_strlit("REQUEST_COOKIES_NAMES");
            reveal_strlit("REQUEST_COOKIES");
            reveal_strlit("REQUEST_FILENAME");
            reveal_strlit("REQUEST_HEADERS_NAMES");
            reveal_strlit("REQUEST_HEADERS");
            reveal_strlit("REQUEST_LINE");
            reveal_strlit("REQUEST_METHOD");
            reveal_strlit("REQUEST_PROTOCOL");
            reveal_strlit("REQUEST_URI");
            reveal_strlit("REQUEST_URI_RAW");
            reveal_strlit("RESPONSE_BODY");
            reveal_strlit("RESPONSE_STATUS");
            reveal_strlit("TX");
            reveal_strlit("UNIQUE_ID");
            reveal_strlit("XML");
        }
        if str_eq(s, "ARGS_COMBINED_SIZE") {
            Some(InputType::ArgsCombinedSize)
        } else if str_eq(s, "ARGS_GET") {
            Some(InputType::ArgsGet)
        } else if str_eq(s, "ARGS_GET_NAMES") {
            Some(InputType::ArgsGetNames)
        } else if str_eq(s, "ARGS_POST") {
            Some(InputType::ArgsPost)
        } else if str_eq(s, "ARGS_POST_NAMES") {
            Some(InputType::ArgsPostNames)
        } else if str_eq(s, "ARGS") {
            Some(InputType::Args)
        } else if str_eq(s, "ARGS_NAMES") {
            Some(InputType::ArgsNames)
        } else if str_eq(s, "DURATION") {
            Some(InputType::Duration)
        } else if str_eq(s, "FILES_COMBINED_SIZE") {
            Some(InputType::FilesCombinedSize)
        } else if str_eq(s, "FILES_NAMES") {
            Some(InputType::FilesNames)
        } else if str_eq(s, "FILES") {
            Some(InputType::Files)
        } else if str_eq(s, "GEO") {
            Some(InputType::Geo)
        } else if str_eq(s, "IP") {
            Some(InputType::Ip)
        } else if str_eq(s, "MATCHED_VAR") {
            Some(InputType::MatchedVar)
        } else if str_eq(s, "MATCHED_VAR_NAME") {
            Some(InputType::MatchedVarName)
        } else if str_eq(s, "MATCHED_VARS") {
            Some(InputType::MatchedVars)
        } else if str_eq(s, "MATCHED_VARS_NAMES") {
            Some(InputType::MatchedVarsNames)
        } else if str_eq(s, "MULTIPART_PART_HEADERS") {
            Some(InputType::MultipartPartHeaders)
        } else if str_eq(s, "QUERY_STRING") {
            Some(InputType::QueryString)
        } else if str_eq(s, "REMOTE_ADDR") {
            Some(InputType::RemoteAddr)
        } else if str_eq(s, "REQBODY_PROCESSOR") {
            Some(InputType::ReqBodyProcessor)
        } else if str_eq(s, "REQUEST_BASENAME") {
            Some(InputType::RequestBasename)
        } else if str_eq(s, "REQUEST_BODY") {
            Some(InputType::RequestBody)
        } else if str_eq(s, "REQUEST_COOKIES_NAMES") {
            Some(InputType::RequestCookiesNames)
        } else if str_eq(s, "REQUEST_COOKIES") {
            Some(InputType::RequestCookies)
        } else if str_eq(s, "REQUEST_FILENAME") {
            Some(InputType::RequestFilename)
        } else if str_eq(s, "REQUEST_HEADERS_NAMES") {
            Some(InputType::RequestHeadersNames)
        } else if str_eq(s, "REQUEST_HEADERS") {
            Some(InputType::RequestHeaders)
        } else if str_eq(s, "REQUEST_LINE") {
            Some(InputType::RequestLine)
        } else if str_eq(s, "REQUEST_METHOD") {
            Some(InputType::RequestMethod)
        } else if str_eq(s, "REQUEST_PROTOCOL") {
            Some(InputType::RequestProtocol)
        } else if str_eq(s, "REQUEST_URI") {
            Some(InputType::RequestUri)
        } else if str_eq(s, "REQUEST_URI_RAW") {
            Some(InputType::RequestUriRaw)
        } else if str_eq(s, "RESPONSE_BODY") {
            Some(InputType::ResponseBody)
        } else if str_eq(s, "RESPONSE_STATUS") {
            Some(InputType::ResponseStatus)
        } else if str_eq(s, "TX") {
            Some(InputType::Tx)
        } else if str_eq(s, "UNIQUE_ID") {
            Some(InputType::UniqueId)
        } else if str_eq(s, "XML") {
            Some(InputType::Xml)
        } else {
            None
        }
    }

    /// Every symbol, in declaration order; for diagnostics and listing.
    pub fn variants() -> (r: Vec<InputType>)
        ensures
            r@ == Self::spec_variants(),
    {
        let mut v: Vec<InputType> = Vec::new();
        v.push(InputType::ArgsCombinedSize);
        v.push(InputType::ArgsGet);
        v.push(InputType::ArgsGetNames);
        v.push(InputType::ArgsPost);
        v.push(InputType::ArgsPostNames);
        v.push(InputType::Args);
        v.push(InputType::ArgsNames);
        v.push(InputType::Duration);
        v.push(InputType::FilesCombinedSize);
        v.push(InputType::FilesNames);
        v.push(InputType::Files);
        v.push(InputType::Geo);
        v.push(InputType::Ip);
        v.push(InputType::MatchedVar);
        v.push(InputType::MatchedVarName);
        v.push(InputType::MatchedVars);
        v.push(InputType::MatchedVarsNames);
        v.push(InputType::MultipartPartHeaders);
        v.push(InputType::QueryString);
        v.push(InputType::RemoteAddr);
        v.push(InputType::ReqBodyProcessor);
        v.push(InputType::RequestBasename);
        v.push(InputType::RequestBody);
        v.push(InputType::RequestCookiesNames);
        v.push(InputType::RequestCookies);
        v.push(InputType::RequestFilename);
        v.push(InputType::RequestHeadersNames);
        v.push(InputType::RequestHeaders);
        v.push(InputType::RequestLine);
        v.push(InputType::RequestMethod);
        v.push(InputType::RequestProtocol);
        v.push(InputType::RequestUri);
        v.push(InputType::RequestUriRaw);
        v.push(InputType::ResponseBody);
        v.push(InputType::ResponseStatus);
        v.push(InputType::Tx);
        v.push(InputType::UniqueId);
        v.push(InputType::Xml);
        proof {
            assert(v@ =~= Self::spec_variants());
        }
        v
    }
}

/// The closed vocabulary of selector modifiers: the prefix symbol that
/// narrows how an input's collection is read.
#[derive(Debug, Copy, Clone, Eq, PartialEq, Hash, Structural)]
pub enum SelectorType {
    /// No prefix: read the named key.
    Include,
    /// `!`: read everything but the named key.
    Exclude,
    /// `&`: count instead of reading.
    Count,
}

impl SelectorType {
    /// The canonical spelling of each modifier.
    pub open spec fn spec_name(self) -> Seq<char> {
        match self {
            SelectorType::Include => ""@,
            SelectorType::Exclude => "!"@,
            SelectorType::Count => "&"@,
        }
    }

    /// The modifier spelled exactly `s`, if any.
    #[verifier::opaque]
    pub open spec fn spec_from_name(s: Seq<char>) -> Option<SelectorType> {
        if s.len() == 0 && s == ""@ {
            Some(SelectorType::Include)
        } else if s.len() == 1 && s == "!"@ {
            Some(SelectorType::Exclude)
        } else if s.len() == 1 && s == "&"@ {
            Some(SelectorType::Count)
        } else {
            None
        }
    }

    /// Every modifier, in declaration order.
    pub open spec fn spec_variants() -> Seq<SelectorType> {
        seq![SelectorType::Include, SelectorType::Exclude, SelectorType::Count]
    }

    /// The canonical spelling of this modifier.
    pub fn name(&self) -> (r: &'static str)
        ensures
            r@ == self.spec_name(),
    {
        match self {
            SelectorType::Include => "",
            SelectorType::Exclude => "!",
            SelectorType::Count => "&",
        }
    }

    /// The modifier whose canonical spelling is exactly `s`, or nothing.
    pub fn from_name(s: &str) -> (r: Option<SelectorType>)
        ensures
            r == Self::spec_from_name(s@),
    {
        proof {
            reveal(SelectorType::spec_from_name);
            reveal_strlit("");
            reveal_strlit("!");
            reveal_strlit("&");
        }
        if str_eq(s, "") {
            Some(SelectorType::Include)
        } else if str_eq(s, "!") {
            Some(SelectorType::Exclude)
        } else if str_eq(s, "&") {
            Some(SelectorType::Count)
        } else {
            None
        }
    }

    /// Every modifier, in declaration order.
    pub fn variants() -> (r: Vec<SelectorType>)
        ensures
            r@ == Self::spec_variants(),
    {
        let mut v: Vec<SelectorType> = Vec::new();
        v.push(SelectorType::Include);
        v.push(SelectorType::Exclude);
        v.push(SelectorType::Count);
        proof {
            assert(v@ =~= Self::spec_variants());
        }
        v
    }
}

// One lemma per symbol walks the lookup chain for that symbol's spelling.
// Each reveals the spellings the chain compares against and, where two
// spellings share a length, points at a character that tells them apart.
proof fn lemma_from_name_args_combined_size()
    ensures
        InputType::spec_from_name(InputType::ArgsCombinedSize.spec_name()) == Some(InputType::ArgsCombinedSize),
{
    reveal(InputType::spec_from_name);
    reveal_strlit("ARGS_COMBINED_SIZE");
}

proof fn lemma_from_name_args_get()
    ensures
        InputType::spec_from_name(InputType::ArgsGet.spec_name()) == Some(InputType::ArgsGet),
{
    reveal(InputType::spec_from_name);
    reveal_strlit("ARGS_GET");
}

proof fn lemma_from_name_args_get_names()
    ensures
        InputType::spec_from_name(InputType::ArgsGetNames.spec_name()) == Some(InputType::ArgsGetNames),
{
    reveal(InputType::spec_from_name);
    reveal_strlit("ARGS_GET_NAMES");
}

proof fn lemma_from_name_args_post()
    ensures
        InputType::spec_from_name(InputType::ArgsPost.spec_name()) == Some(InputType::ArgsPost),
{
    reveal(InputType::spec_from_name);
    reveal_strlit("ARGS_POST");
}

proof fn lemma_from_name_args_post_names()
    ensures
        InputType::spec_from_name(InputType::ArgsPostNames.spec_name()) == Some(InputType::ArgsPostNames),
{
    reveal(InputType::spec_from_name);
    reveal_strlit("ARGS_POST_NAMES");
}

proof fn lemma_from_name_args()
    ensures
        InputType::spec_from_name(InputType::Args.spec_name()) == Some(InputType::Args),
{
    reveal(InputType::spec_from_name);
    reveal_strlit("ARGS");
}

proof fn lemma_from_name_args_names()
    ensures
        InputType::spec_from_name(InputType::ArgsNames.spec_name()) == Some(InputType::ArgsNames),
{
    reveal(InputType::spec_from_name);
    reveal_strlit("ARGS_NAMES");
}

proof fn lemma_from_name_duration()
    ensures
        InputType::spec_from_name(InputType::Duration.spec_name()) == Some(InputType::Duration),
{
    reveal(InputType::spec_from_name);
    reveal_strlit("ARGS_GET");
    reveal_strlit("DURATION");
    assert("ARGS_GET"@[0] == 'A');
    assert("DURATION"@[0] == 'D');
    assert("ARGS_GET"@ != "DURATION"@);
}

proof fn lemma_from_name_files_combined_size()
    ensures
        InputType::spec_from_name(InputType::FilesCombinedSize.spec_name()) == Some(InputType::FilesCombinedSize),
{
    reveal(InputType::spec_from_name);
    reveal_strlit("FILES_COMBINED_SIZE");
}

proof fn lemma_from_name_files_names()
    ensures
        InputType::spec_from_name(InputType::FilesNames.spec_name()) == Some(InputType::FilesNames),
{
    reveal(InputType::spec_from_name);
    reveal_strlit("FILES_NAMES");
}

proof fn lemma_from_name_files()
    ensures
        InputType::spec_from_name(InputType::Files.spec_name()) == Some(InputType::Files),
{
    reveal(InputType::spec_from_name);
    reveal_strlit("FILES");
}

proof fn lemma_from_name_geo()
    ensures
        InputType::spec_from_name(InputType::Geo.spec_name()) == Some(InputType::Geo),
{
    reveal(InputType::spec_from_name);
    reveal_strlit("GEO");
}

proof fn lemma_from_name_ip()
    ensures
        InputType::spec_from_name(InputType::Ip.spec_name()) == Some(InputType::Ip),
{
    reveal(InputType::spec_from_name);
    reveal_strlit("IP");
}

proof fn lemma_from_name_matched_var()
    ensures
        InputType::spec_from_name(InputType::MatchedVar.spec_name()) == Some(InputType::MatchedVar),
{
    reveal(InputType::spec_from_name);
    reveal_strlit("FILES_NAMES");
    reveal_strlit("MATCHED_VAR");
    assert("FILES_NAMES"@[0] == 'F');
    assert("MATCHED_VAR"@[0] == 'M');
    assert("FILES_NAMES"@ != "MATCHED_VAR"@);
}

proof fn lemma_from_name_matched_var_name()
    ensures
        InputType::spec_from_name(InputType::MatchedVarName.spec_name()) == Some(InputType::MatchedVarName),
{
    reveal(InputType::spec_from_name);
    reveal_strlit("MATCHED_VAR_NAME");
}

proof fn lemma_from_name_matched_vars()
    ensures
        InputType::spec_from_name(InputType::MatchedVars.spec_name()) == Some(InputType::MatchedVars),
{
    reveal(InputType::spec_from_name);
    reveal_strlit("MATCHED_VARS");
}

proof fn lemma_from_name_matched_vars_names()
    ensures
        InputType::spec_from_name(InputType::MatchedVarsNames.spec_name()) == Some(InputType::MatchedVarsNames),
{
    reveal(InputType::spec_from_name);
    reveal_strlit("ARGS_COMBINED_SIZE");
    reveal_strlit("MATCHED_VARS_NAMES");
    assert("ARGS_COMBINED_SIZE"@[0] == 'A');
    assert("MATCHED_VARS_NAMES"@[0] == 'M');
    assert("ARGS_COMBINED_SIZE"@ != "MATCHED_VARS_NAMES"@);
}

proof fn lemma_from_name_multipart_part_headers()
    ensures
        InputType::spec_from_name(InputType::MultipartPartHeaders.spec_name()) == Some(InputType::MultipartPartHeaders),
{
    reveal(InputType::spec_from_name);
    reveal_strlit("MULTIPART_PART_HEADERS");
}

proof fn lemma_from_name_query_string()
    ensures
        InputType::spec_from_name(InputType::QueryString.spec_name()) == Some(InputType::QueryString),
{
    reveal(InputType::spec_from_name);
    reveal_strlit("MATCHED_VARS");
    reveal_strlit("QUERY_STRING");
    assert("MATCHED_VARS"@[0] == 'M');
    assert("QUERY_STRING"@[0] == 'Q');
    assert("MATCHED_VARS"@ != "QUERY_STRING"@);
}

proof fn lemma_from_name_remote_addr()
    ensures
        InputType::spec_from_name(InputType::RemoteAddr.spec_name()) == Some(InputType::RemoteAddr),
{
    reveal(InputType::spec_from_name);
    reveal_strlit("FILES_NAMES");
    reveal_strlit("MATCHED_VAR");
    reveal_strlit("REMOTE_ADDR");
    assert("FILES_NAMES"@[0] == 'F');
    assert("REMOTE_ADDR"@[0] == 'R');
    assert("FILES_NAMES"@ != "REMOTE_ADDR"@);
    assert("MATCHED_VAR"@[0] == 'M');
    assert("REMOTE_ADDR"@[0] == 'R');
    assert("MATCHED_VAR"@ != "REMOTE_ADDR"@);
}

proof fn lemma_from_name_req_body_processor()
    ensures
        InputType::spec_from_name(InputType::ReqBodyProcessor.spec_name()) == Some(InputType::ReqBodyProcessor),
{
    reveal(InputType::spec_from_name);
    reveal_strlit("REQBODY_PROCESSOR");
}

proof fn lemma_from_name_request_basename()
    ensures
        InputType::spec_from_name(InputType::RequestBasename.spec_name()) == Some(InputType::RequestBasename),
{
    reveal(InputType::spec_from_name);
    reveal_strlit("MATCHED_VAR_NAME");
    reveal_strlit("REQUEST_BASENAME");
    assert("MATCHED_VAR_NAME"@[0] == 'M');
    assert("REQUEST_BASENAME"@[0] == 'R');
    assert("MATCHED_VAR_NAME"@ != "REQUEST_BASENAME"@);
}

proof fn lemma_from_name_request_body()
    ensures
        InputType::spec_from_name(InputType::RequestBody.spec_name()) == Some(InputType::RequestBody),
{
    reveal(InputType::spec_from_name);
    reveal_strlit("MATCHED_VARS");
    reveal_strlit("QUERY_STRING");
    reveal_strlit("REQUEST_BODY");
    assert("MATCHED_VARS"@[0] == 'M');
    assert("REQUEST_BODY"@[0] == 'R');
    assert("MATCHED_VARS"@ != "REQUEST_BODY"@);
    assert("QUERY_STRING"@[0] == 'Q');
    assert("REQUEST_BODY"@[0] == 'R');
    assert("QUERY_STRING"@ != "REQUEST_BODY"@);
}

proof fn lemma_from_name_request_cookies_names()
    ensures
        InputType::spec_from_name(InputType::RequestCookiesNames.spec_name()) == Some(InputType::RequestCookiesNames),
{
    reveal(InputType::spec_from_name);
    reveal_strlit("REQUEST_COOKIES_NAMES");
}

proof fn lemma_from_name_request_cookies()
    ensures
        InputType::spec_from_name(InputType::RequestCookies.spec_name()) == Some(InputType::RequestCookies),
{
    reveal(InputType::spec_from_name);
    reveal_strlit("ARGS_POST_NAMES");
    reveal_strlit("REQUEST_COOKIES");
    assert("ARGS_POST_NAMES"@[0] == 'A');
    assert("REQUEST_COOKIES"@[0] == 'R');
    assert("ARGS_POST_NAMES"@ != "REQUEST_COOKIES"@);
}

proof fn lemma_from_name_request_filename()
    ensures
        InputType::spec_from_name(InputType::RequestFilename.spec_name()) == Some(InputType::RequestFilename),
{
    reveal(InputType::spec_from_name);
    reveal_strlit("MATCHED_VAR_NAME");
    reveal_strlit("REQUEST_BASENAME");
    reveal_strlit("REQUEST_FILENAME");
    assert("MATCHED_VAR_NAME"@[0] == 'M');
    assert("REQUEST_FILENAME"@[0] == 'R');
    assert("MATCHED_VAR_NAME"@ != "REQUEST_FILENAME"@);
    assert("REQUEST_BASENAME"@[8] == 'B');
    assert("REQUEST_FILENAME"@[8] == 'F');
    assert("REQUEST_BASENAME"@ != "REQUEST_FILENAME"@);
}

proof fn lemma_from_name_request_headers_names()
    ensures
        InputType::spec_from_name(InputType::RequestHeadersNames.spec_name()) == Some(InputType::RequestHeadersNames),
{
    reveal(InputType::spec_from_name);
    reveal_strlit("REQUEST_COOKIES_NAMES");
    reveal_strlit("REQUEST_HEADERS_NAMES");
    assert("REQUEST_COOKIES_NAMES"@[8] == 'C');
    assert("REQUEST_HEADERS_NAMES"@[8] == 'H');
    assert("REQUEST_COOKIES_NAMES"@ != "REQUEST_HEADERS_NAMES"@);
}

proof fn lemma_from_name_request_headers()
    ensures
        InputType::spec_from_name(InputType::RequestHeaders.spec_name()) == Some(InputType::RequestHeaders),
{
    reveal(InputType::spec_from_name);
    reveal_strlit("ARGS_POST_NAMES");
    reveal_strlit("REQUEST_COOKIES");
    reveal_strlit("REQUEST_HEADERS");
    assert("ARGS_POST_NAMES"@[0] == 'A');
    assert("REQUEST_HEADERS"@[0] == 'R');
    assert("ARGS_POST_NAMES"@ != "REQUEST_HEADERS"@);
    assert("REQUEST_COOKIES"@[8] == 'C');
    assert("REQUEST_HEADERS"@[8] == 'H');
    assert("REQUEST_COOKIES"@ != "REQUEST_HEADERS"@);
}

proof fn lemma_from_name_request_line()
    ensures
        InputType::spec_from_name(InputType::RequestLine.spec_name()) == Some(InputType::RequestLine),
{
    reveal(InputType::spec_from_name);
    reveal_strlit("MATCHED_VARS");
    reveal_strlit("QUERY_STRING");
    reveal_strlit("REQUEST_BODY");
    reveal_strlit("REQUEST_LINE");
    assert("MATCHED_VARS"@[0] == 'M');
    assert("REQUEST_LINE"@[0] == 'R');
    assert("MATCHED_VARS"@ != "REQUEST_LINE"@);
    assert("QUERY_STRING"@[0] == 'Q');
    assert("REQUEST_LINE"@[0] == 'R');
    assert("QUERY_STRING"@ != "REQUEST_LINE"@);
    assert("REQUEST_BODY"@[8] == 'B');
    assert("REQUEST_LINE"@[8] == 'L');
    assert("REQUEST_BODY"@ != "REQUEST_LINE"@);
}

proof fn lemma_from_name_request_method()
    ensures
        InputType::spec_from_name(InputType::RequestMethod.spec_name()) == Some(InputType::RequestMethod),
{
    reveal(InputType::spec_from_name);
    reveal_strlit("ARGS_GET_NAMES");
    reveal_strlit("REQUEST_METHOD");
    assert("ARGS_GET_NAMES"@[0] == 'A');
    assert("REQUEST_METHOD"@[0] == 'R');
    assert("ARGS_GET_NAMES"@ != "REQUEST_METHOD"@);
}

proof fn lemma_from_name_request_protocol()
    ensures
        InputType::spec_from_name(InputType::RequestProtocol.spec_name()) == Some(InputType::RequestProtocol),
{
    reveal(InputType::spec_from_name);
    reveal_strlit("MATCHED_VAR_NAME");
    reveal_strlit("REQUEST_BASENAME");
    reveal_strlit("REQUEST_FILENAME");
    reveal_strlit("REQUEST_PROTOCOL");
    assert("MATCHED_VAR_NAME"@[0] == 'M');
    assert("REQUEST_PROTOCOL"@[0] == 'R');
    assert("MATCHED_VAR_NAME"@ != "REQUEST_PROTOCOL"@);
    assert("REQUEST_BASENAME"@[8] == 'B');
    assert("REQUEST_PROTOCOL"@[8] == 'P');
    assert("REQUEST_BASENAME"@ != "REQUEST_PROTOCOL"@);
    assert("REQUEST_FILENAME"@[8] == 'F');
    assert("REQUEST_PROTOCOL"@[8] == 'P');
    assert("REQUEST_FILENAME"@ != "REQUEST_PROTOCOL"@);
}

proof fn lemma_from_name_request_uri()
    ensures
        InputType::spec_from_name(InputType::RequestUri.spec_name()) == Some(InputType::RequestUri),
{
    reveal(InputType::spec_from_name);
    reveal_strlit("FILES_NAMES");
    reveal_strlit("MATCHED_VAR");
    reveal_strlit("REMOTE_ADDR");
    reveal_strlit("REQUEST_URI");
    assert("FILES_NAMES"@[0] == 'F');
    assert("REQUEST_URI"@[0] == 'R');
    assert("FILES_NAMES"@ != "REQUEST_URI"@);
    assert("MATCHED_VAR"@[0] == 'M');
    assert("REQUEST_URI"@[0] == 'R');
    assert("MATCHED_VAR"@ != "REQUEST_URI"@);
    assert("REMOTE_ADDR"@[2] == 'M');
    assert("REQUEST_URI"@[2] == 'Q');
    assert("REMOTE_ADDR"@ != "REQUEST_URI"@);
}

proof fn lemma_from_name_request_uri_raw()
    ensures
        InputType::spec_from_name(InputType::RequestUriRaw.spec_name()) == Some(InputType::RequestUriRaw),
{
    reveal(InputType::spec_from_name);
    reveal_strlit("ARGS_POST_NAMES");
    reveal_strlit("REQUEST_COOKIES");
    reveal_strlit("REQUEST_HEADERS");
    reveal_strlit("REQUEST_URI_RAW");
    assert("ARGS_POST_NAMES"@[0] == 'A');
    assert("REQUEST_URI_RAW"@[0] == 'R');
    assert("ARGS_POST_NAMES"@ != "REQUEST_URI_RAW"@);
    assert("REQUEST_COOKIES"@[8] == 'C');
    assert("REQUEST_URI_RAW"@[8] == 'U');
    assert("REQUEST_COOKIES"@ != "REQUEST_URI_RAW"@);
    assert("REQUEST_HEADERS"@[8] == 'H');
    assert("REQUEST_URI_RAW"@[8] == 'U');
    assert("REQUEST_HEADERS"@ != "REQUEST_URI_RAW"@);
}

proof fn lemma_from_name_response_body()
    ensures
        InputType::spec_from_name(InputType::ResponseBody.spec_name()) == Some(InputType::ResponseBody),
{
    reveal(InputType::spec_from_name);
    reveal_strlit("RESPONSE_BODY");
}

proof fn lemma_from_name_response_status()
    ensures
        InputType::spec_from_name(InputType::ResponseStatus.spec_name()) == Some(InputType::ResponseStatus),
{
    reveal(InputType::spec_from_name);
    reveal_strlit("ARGS_POST_NAMES");
    reveal_strlit("REQUEST_COOKIES");
    reveal_strlit("REQUEST_HEADERS");
    reveal_strlit("REQUEST_URI_RAW");
    reveal_strlit("RESPONSE_STATUS");
    assert("ARGS_POST_NAMES"@[0] == 'A');
    assert("RESPONSE_STATUS"@[0] == 'R');
    assert("ARGS_POST_NAMES"@ != "RESPONSE_STATUS"@);
    assert("REQUEST_COOKIES"@[2] == 'Q');
    assert("RESPONSE_STATUS"@[2] == 'S');
    assert("REQUEST_COOKIES"@ != "RESPONSE_STATUS"@);
    assert("REQUEST_HEADERS"@[2] == 'Q');
    assert("RESPONSE_STATUS"@[2] == 'S');
    assert("REQUEST_HEADERS"@ != "RESPONSE_STATUS"@);
    assert("REQUEST_URI_RAW"@[2] == 'Q');
    assert("RESPONSE_STATUS"@[2] == 'S');
    assert("REQUEST_URI_RAW"@ != "RESPONSE_STATUS"@);
}

proof fn lemma_from_name_tx()
    ensures
        InputType::spec_from_name(InputType::Tx.spec_name()) == Some(InputType::Tx),
{
    reveal(InputType::spec_from_name);
    reveal_strlit("IP");
    reveal_strlit("TX");
    assert("IP"@[0] == 'I');
    assert("TX"@[0] == 'T');
    assert("IP"@ != "TX"@);
}

proof fn lemma_from_name_unique_id()
    ensures
        InputType::spec_from_name(InputType::UniqueId.spec_name()) == Some(InputType::UniqueId),
{
    reveal(InputType::spec_from_name);
    reveal_strlit("ARGS_POST");
    reveal_strlit("UNIQUE_ID");
    assert("ARGS_POST"@[0] == 'A');
    assert("UNIQUE_ID"@[0] == 'U');
    assert("ARGS_POST"@ != "UNIQUE_ID"@);
}

proof fn lemma_from_name_xml()
    ensures
        InputType::spec_from_name(InputType::Xml.spec_name()) == Some(InputType::Xml),
{
    reveal(InputType::spec_from_name);
    reveal_strlit("GEO");
    reveal_strlit("XML");
    assert("GEO"@[0] == 'G');
    assert("XML"@[0] == 'X');
    assert("GEO"@ != "XML"@);
}

/// Law: the two lookups of the input-source vocabulary are mutual inverses
/// over the closed set. Looking a symbol's own spelling up finds exactly
/// that symbol.
pub proof fn lemma_input_type_inverse(t: InputType)
    ensures
        InputType::spec_from_name(t.spec_name()) == Some(t),
{
    lemma_from_name_args_combined_size();
    lemma_from_name_args_get();
    lemma_from_name_args_get_names();
    lemma_from_name_args_post();
    lemma_from_name_args_post_names();
    lemma_from_name_args();
    lemma_from_name_args_names();
    lemma_from_name_duration();
    lemma_from_name_files_combined_size();
    lemma_from_name_files_names();
    lemma_from_name_files();
    lemma_from_name_geo();
    lemma_from_name_ip();
    lemma_from_name_matched_var();
    lemma_from_name_matched_var_name();
    lemma_from_name_matched_vars();
    lemma_from_name_matched_vars_names();
    lemma_from_name_multipart_part_headers();
    lemma_from_name_query_string();
    lemma_from_name_remote_addr();
    lemma_from_name_req_body_processor();
    lemma_from_name_request_basename();
    lemma_from_name_request_body();
    lemma_from_name_request_cookies_names();
    lemma_from_name_request_cookies();
    lemma_from_name_request_filename();
    lemma_from_name_request_headers_names();
    lemma_from_name_request_headers();
    lemma_from_name_request_line();
    lemma_from_name_request_method();
    lemma_from_name_request_protocol();
    lemma_from_name_request_uri();
    lemma_from_name_request_uri_raw();
    lemma_from_name_response_body();
    lemma_from_name_response_status();
    lemma_from_name_tx();
    lemma_from_name_unique_id();
    lemma_from_name_xml();
}

/// Law: the two lookups of the selector-modifier vocabulary are mutual
/// inverses over the closed set.
pub proof fn lemma_selector_type_inverse(t: SelectorType)
    ensures
        SelectorType::spec_from_name(t.spec_name()) == Some(t),
{
    reveal(SelectorType::spec_from_name);
    reveal_strlit("");
    reveal_strlit("!");
    reveal_strlit("&");
    assert(""@.len() == 0);
    assert("!"@.len() == 1);
    assert("&"@.len() == 1);
    assert("!"@ != ""@);
    assert("&"@ != ""@);
    assert("&"@[0] == '&');
    assert("!"@[0] == '!');
    assert("&"@ != "!"@);
    match t {
        SelectorType::Include => {
            assert(SelectorType::spec_from_name(t.spec_name()) == Some(t));
        },
        SelectorType::Exclude => {
            assert(SelectorType::spec_from_name(t.spec_name()) == Some(t));
        },
        SelectorType::Count => {
            assert(SelectorType::spec_from_name(t.spec_name()) == Some(t));
        },
    }
}

} // verus!
