//! The pool of script isolates: what each isolate is started with, and how
//! the names of modules map to addresses.

use vstd::prelude::*;
use vstd::utf8::{decode_utf8, valid_utf8};
use crate::constants::{MAIN_MODULE, MODULE_URI};
use crate::tasks::{parse_url, url_record};
use crate::text::{begins_with, chars_of, decimal, push_decimal, push_str, starts_with, string_of, tail_of};

verus! {

/// What an isolate runs.
#[derive(Clone, Debug)]
pub enum ExecuteMode {
    /// The module at this address, and then the event loop.
    JsModule(String),
    /// This code, once.
    JsCode(String),
}

/// How one isolate is started.
#[derive(Clone, Debug)]
pub struct IsolateLaunch {
    pub execute: ExecuteMode,
    /// Whether the isolate is built anew whenever its script ends or fails.
    pub forever: bool,
    /// The port of the inspector; zero for no inspector.
    pub inspector_port: u16,
}

/// The address of a module.
pub open spec fn module_address(name: Seq<char>) -> Seq<char> {
    MODULE_URI@ + name
}

/// The address of the module `name`.
pub fn module_url(name: &str) -> (out: String)
    ensures
        out@ == module_address(name@),
{
    let mut buf: Vec<char> = Vec::new();
    push_str(&mut buf, MODULE_URI);
    push_str(&mut buf, name);
    string_of(&buf)
}

/// The text that reports an address that does not parse.
pub open spec fn cannot_parse(address: Seq<char>) -> Seq<char> {
    "cannot parse: "@ + address
}

/// The address that a specifier stands for: the specifier itself where it
/// lies under the origin of the modules, else the specifier put under that
/// origin.
pub open spec fn specifier_address(specifier: Seq<char>) -> Seq<char> {
    if begins_with(specifier, MODULE_URI@) {
        specifier
    } else {
        module_address(specifier)
    }
}

/// The loader that maps the names of modules to responses.
pub struct FNModuleLoader {}

impl FNModuleLoader {
    /// Resolves a specifier to the address of a module: the specifier is
    /// put under the origin of the modules unless it lies there already,
    /// and the address is handed back in its serialized form. An address
    /// that does not parse is reported.
    pub fn resolve(specifier: &str) -> (r: Result<String, String>)
        ensures
            match url_record(specifier_address(specifier@)) {
                Some(url) => r matches Ok(address) && address@ == url.text,
                None => r matches Err(e) && e@ == cannot_parse(specifier_address(specifier@)),
            },
    {
        let s = chars_of(specifier);
        let origin = chars_of(MODULE_URI);
        let address = if starts_with(&s, &origin) {
            string_of(&s)
        } else {
            module_url(specifier)
        };
        match parse_url(address.as_str()) {
            Some(url) => Ok(url.text),
            None => {
                let mut buf: Vec<char> = Vec::new();
                push_str(&mut buf, "cannot parse: ");
                push_str(&mut buf, address.as_str());
                Err(string_of(&buf))
            },
        }
    }

    /// The name of the response that holds the module at `address`: the
    /// path of the address without its first character. An address that
    /// does not parse, or has an empty path, names none.
    pub fn load(address: &str) -> (r: Option<String>)
        ensures
            match url_record(address@) {
                Some(url) => if url.path.len() > 0 {
                    r matches Some(name) && name@ == url.path.skip(1)
                } else {
                    r is None
                },
                None => r is None,
            },
    {
        match parse_url(address) {
            Some(url) => {
                let path = chars_of(url.path.as_str());
                if path.len() > 0 {
                    let name = tail_of(&path, 1);
                    Some(string_of(&name))
                } else {
                    None
                }
            },
            None => None,
        }
    }
}

/// `String::from_utf8`: the text that the bytes stand for in UTF-8, or the
/// error's message where they stand for none.
#[verifier::external_body]
fn string_from_utf8(bytes: Vec<u8>) -> (r: Result<String, String>)
    ensures
        match r {
            Ok(text) => valid_utf8(bytes@) && text@ == decode_utf8(bytes@),
            Err(_) => !valid_utf8(bytes@),
        },
{
    String::from_utf8(bytes).map_err(|e| e.to_string())
}

/// The source of a module from what the table of responses gave for it:
/// the content as text. Content that is no UTF-8, or a failure to read the
/// content, is an error.
pub fn load_module(content: Result<Vec<u8>, String>) -> (r: Result<String, String>)
    ensures
        match content {
            Ok(bytes) => if valid_utf8(bytes@) {
                r matches Ok(text) && text@ == decode_utf8(bytes@)
            } else {
                r is Err
            },
            Err(e) => r == Err::<String, String>(e),
        },
{
    match content {
        Ok(bytes) => string_from_utf8(bytes),
        Err(e) => Err(e),
    }
}

/// A whole number in decimal, with a minus sign where it is negative.
pub open spec fn signed_decimal(n: int) -> Seq<char> {
    if n < 0 {
        seq!['-'] + decimal((-n) as nat)
    } else {
        decimal(n as nat)
    }
}

/// The name of the thread of the isolate with the number `id`.
pub fn thread_name(id: i16) -> (name: String)
    ensures
        name@ == "js-thread-"@ + signed_decimal(id as int),
{
    let mut buf: Vec<char> = Vec::new();
    push_str(&mut buf, "js-thread-");
    if id < 0 {
        buf.push('-');
        push_decimal(&mut buf, (-(id as i64)) as u64);
        assert(buf@ =~= "js-thread-"@ + signed_decimal(id as int));
    } else {
        push_decimal(&mut buf, id as u64);
    }
    string_of(&buf)
}

/// How the `index`-th worker isolate of a pool is started: it runs the
/// main module for ever, and the first one alone has the inspector.
pub open spec fn is_worker_launch(
    launch: IsolateLaunch,
    index: int,
    main_address: Seq<char>,
    inspector_port: u16,
) -> bool {
    &&& launch.execute matches ExecuteMode::JsModule(address) && address@ == main_address
    &&& launch.forever
    &&& launch.inspector_port == if index == 0 {
        inspector_port
    } else {
        0
    }
}

/// What an isolate does once its script has ended or failed.
#[derive(Clone, Copy, Debug, PartialEq, Eq, Structural)]
pub enum AfterRun {
    /// Build the isolate anew and run again.
    Rebuild,
    /// End the thread.
    Exit,
}

/// The address on which the inspector of an isolate listens.
pub open spec fn inspector_listens_on(port: u16) -> Seq<char> {
    "127.0.0.1:"@ + decimal(port as nat)
}

impl IsolateLaunch {
    /// The address on which the inspector of the isolate listens: the
    /// inspector's port on the local host; none where the port is zero.
    pub fn inspector_address(&self) -> (r: Option<String>)
        ensures
            match r {
                Some(address) => self.inspector_port > 0 && address@ == inspector_listens_on(
                    self.inspector_port,
                ),
                None => self.inspector_port == 0,
            },
    {
        if self.inspector_port > 0 {
            let mut buf: Vec<char> = Vec::new();
            push_str(&mut buf, "127.0.0.1:");
            push_decimal(&mut buf, self.inspector_port as u64);
            Some(string_of(&buf))
        } else {
            None
        }
    }

    /// Whether the isolate has an inspector attached.
    pub fn has_inspector(&self) -> (r: bool)
        ensures
            r == (self.inspector_port > 0),
    {
        self.inspector_port > 0
    }

    /// What the isolate does once its script has ended or failed: an
    /// isolate that runs for ever is built anew, any other ends.
    pub fn after_run(&self) -> (next: AfterRun)
        ensures
            next == if self.forever {
                AfterRun::Rebuild
            } else {
                AfterRun::Exit
            },
    {
        if self.forever {
            AfterRun::Rebuild
        } else {
            AfterRun::Exit
        }
    }
}

/// The starter of the script isolates.
pub struct JavaScriptManager {}

impl JavaScriptManager {
    /// The launches of a pool of `thread_count` worker isolates. Each runs
    /// the main module for ever; the first has the inspector on
    /// `inspector_port`, the others have none. Where the address of the
    /// main module does not parse, nothing is started.
    pub fn create(thread_count: usize, inspector_port: u16) -> (r: Result<
        Vec<IsolateLaunch>,
        String,
    >)
        ensures
            match url_record(module_address(MAIN_MODULE@)) {
                Some(url) => {
                    &&& r matches Ok(launches)
                    &&& launches@.len() == thread_count
                    &&& forall|i: int|
                        0 <= i < launches@.len() ==> is_worker_launch(
                            #[trigger] launches@[i],
                            i,
                            url.text,
                            inspector_port,
                        )
                },
                None => r matches Err(e) && e@ == cannot_parse(module_address(MAIN_MODULE@)),
            },
    {
        let main_uri = module_url(MAIN_MODULE);
        let main_module = match parse_url(main_uri.as_str()) {
            Some(url) => url.text,
            None => {
                let mut buf: Vec<char> = Vec::new();
                push_str(&mut buf, "cannot parse: ");
                push_str(&mut buf, main_uri.as_str());
                return Err(string_of(&buf));
            },
        };
        let mut launches: Vec<IsolateLaunch> = Vec::new();
        let mut id: usize = 0;
        while id < thread_count
            invariant
                id <= thread_count,
                launches@.len() == id,
                forall|i: int|
                    0 <= i < launches@.len() ==> is_worker_launch(
                        #[trigger] launches@[i],
                        i,
                        main_module@,
                        inspector_port,
                    ),
            decreases thread_count - id,
        {
            launches.push(
                IsolateLaunch {
                    execute: ExecuteMode::JsModule(main_module.clone()),
                    forever: true,
                    inspector_port: if id == 0 {
                        inspector_port
                    } else {
                        0
                    },
                },
            );
            id += 1;
        }
        Ok(launches)
    }

    /// The launch of an isolate that runs `code` once, without inspector.
    pub fn run(code: String) -> (launch: IsolateLaunch)
        ensures
            launch.execute matches ExecuteMode::JsCode(c) && c == code,
            !launch.forever,
            launch.inspector_port == 0,
    {
        IsolateLaunch { execute: ExecuteMode::JsCode(code), forever: false, inspector_port: 0 }
    }
}

} // verus!
