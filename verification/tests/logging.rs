use std::cell::RefCell;
use std::fmt::Debug;
use std::str::FromStr;

use log::Level;
use log_derive::item::{
    Block, FnArg, ItemFn, Layer, LogArg, LogCall, ReturnType, Signature, TypePath,
};
use log_derive::meta::{NestedMeta, Path, Value};
use log_derive::{logfn, logfn_inputs, BodyWrapper};

/// One record that a call emitted.
#[derive(Clone, Debug)]
struct LogRecord {
    msg: String,
    level: Level,
}

/// Collects the records of one test.
struct Logger(RefCell<Vec<LogRecord>>);

impl Logger {
    fn new() -> Logger {
        Logger(RefCell::new(Vec::with_capacity(4)))
    }

    fn pop_log(&self) -> LogRecord {
        self.0.borrow_mut().pop().unwrap()
    }

    fn assert_last_log(&self, msg: &str, level: Level) {
        let last = self.pop_log();
        assert_eq!(last.msg, msg);
        assert_eq!(last.level, level);
    }

    fn is_empty(&self) -> bool {
        self.0.borrow().is_empty()
    }
}

/// What a body returned, as the placeholders of a template show it.
struct Returned {
    /// The whole value.
    whole: String,
    /// The value inside, where the value is a success or a failure.
    inner: String,
    failed: bool,
}

fn plain<T: Debug>(value: &T) -> Returned {
    Returned { whole: format!("{:?}", value), inner: format!("{:?}", value), failed: false }
}

fn outcome<T: Debug, E: Debug>(value: &Result<T, E>) -> Returned {
    match value {
        Ok(inner) => {
            Returned { whole: format!("{:?}", value), inner: format!("{:?}", inner), failed: false }
        }
        Err(inner) => {
            Returned { whole: format!("{:?}", value), inner: format!("{:?}", inner), failed: true }
        }
    }
}

/// Emits a log statement: every placeholder of the template takes the next argument.
fn emit(logger: &Logger, call: &LogCall, inputs: &[(&str, String)], value: Option<&str>) {
    let mut msg = String::new();
    let mut rest = call.fmt.as_str();
    for arg in &call.args {
        let at = rest.find('{').expect("a placeholder for every argument");
        let end = at + rest[at..].find('}').expect("a closed placeholder") + 1;
        msg.push_str(&rest[..at]);
        match arg {
            LogArg::Value | LogArg::Failure => msg.push_str(value.expect("a returned value")),
            LogArg::Elapsed => msg.push_str("0ns"),
            LogArg::Input(name) => {
                let (_, shown) = inputs.iter().find(|(input, _)| input == name).expect("an input");
                msg.push_str(shown)
            }
        }
        rest = &rest[end..];
    }
    msg.push_str(rest);
    let level = Level::from_str(&call.level).expect("a level of the facade");
    assert_eq!(format!("{:?}", level), call.level);
    logger.0.borrow_mut().push(LogRecord { msg, level });
}

/// Calls a function: runs its layers from the outermost in, and `body` in their middle.
fn call(
    logger: &Logger,
    layers: &[Layer],
    inputs: &[(&str, String)],
    body: &mut dyn FnMut() -> Returned,
) -> Returned {
    match layers.split_last() {
        None => body(),
        Some((Layer::Log(statement), inner)) => {
            emit(logger, statement, inputs, None);
            call(logger, inner, inputs, body)
        }
        Some((Layer::Wrap(wrapper), inner)) => {
            let returned = call(logger, inner, inputs, body);
            let (expr, shown) = if !wrapper.branching {
                (&wrapper.ok_expr, &returned.whole)
            } else if returned.failed {
                (&wrapper.err_expr, &returned.inner)
            } else {
                (&wrapper.ok_expr, &returned.inner)
            };
            if let Some(statement) = expr {
                emit(logger, statement, inputs, Some(shown));
            }
            returned
        }
    }
}

fn word(name: &str) -> NestedMeta {
    NestedMeta::Path(Path { leading_colon: false, segments: vec![name.to_string()] })
}

fn text(name: &str, value: &str) -> NestedMeta {
    NestedMeta::NameValue(
        Path { leading_colon: false, segments: vec![name.to_string()] },
        Value::Str(value.to_string()),
    )
}

fn function(name: &str, asyncness: bool, inputs: Vec<FnArg>, output: ReturnType) -> ItemFn {
    ItemFn {
        sig: Signature { ident: name.to_string(), asyncness, inputs, output },
        block: Block { source: String::from("body()"), layers: Vec::new() },
    }
}

fn named(name: &str) -> FnArg {
    FnArg::Ident(name.to_string())
}

fn path(name: &str) -> ReturnType {
    ReturnType::Path(TypePath { segments: vec![name.to_string()] })
}

// #[logfn(INFO, fmt = "wrapper_function returned {:?}")]
// fn wrapped_function(a: u8, b: &str)
fn wrapped_function(logger: &Logger, a: u8, b: &str) {
    let original = function("wrapped_function", false, vec![named("a"), named("b")], ReturnType::Default);
    let items = [word("INFO"), text("fmt", "wrapper_function returned {:?}")];
    let new_fn = logfn(&items, original, BodyWrapper::Direct).unwrap();
    call(logger, &new_fn.block.layers, &[], &mut || {
        let mut test1 = Vec::new();
        let mut test2 = || {
            test1.push(5);
        };
        test2();
        println!("{} {}", b, a);
        plain(&())
    });
}

struct AAAAAA;

impl AAAAAA {
    // #[logfn(Info)]
    // pub fn yoyoy(&self, _a: String, _b: u8, _c: Vec<u8>) -> Vec<u8>
    fn yoyoy(&self, logger: &Logger, _a: String, _b: u8, _c: Vec<u8>) -> Vec<u8> {
        let inputs = vec![FnArg::Receiver, named("_a"), named("_b"), named("_c")];
        let original = function("yoyoy", false, inputs, path("Vec"));
        let new_fn = logfn(&[word("Info")], original, BodyWrapper::Direct).unwrap();
        let mut out = Vec::new();
        call(logger, &new_fn.block.layers, &[], &mut || {
            out = vec![0u8; 8];
            plain(&out)
        });
        out
    }
}

#[derive(Debug, PartialEq)]
struct E;

#[derive(Debug)]
struct Me(Option<u8>);

#[derive(Debug)]
struct Tes(pub bool);

impl Me {
    // #[logfn(INFO, fmt = "DB: {:?}", ok = "debug", err = "trace")]
    // fn abc(&mut self, err: Tes) -> Result<String, E>
    fn abc(&mut self, logger: &Logger, err: Tes) -> Result<String, E> {
        let original = function("abc", false, vec![FnArg::Receiver, named("err")], path("Result"));
        let items =
            [word("INFO"), text("fmt", "DB: {:?}"), text("ok", "debug"), text("err", "trace")];
        let new_fn = logfn(&items, original, BodyWrapper::Direct).unwrap();
        let mut out = Err(E);
        call(logger, &new_fn.block.layers, &[], &mut || {
            let mut clos = || {
                self.third(logger, &err)?;
                if err.0 {
                    return Err(E);
                } else {
                    self.0 = Some(5);
                    return Ok(String::from("Hi!"));
                }
            };
            out = clos();
            outcome(&out)
        });
        out
    }

    // #[logfn(Info)]
    // fn third(&self, err: &Tes) -> Result<String, E>
    fn third(&self, logger: &Logger, err: &Tes) -> Result<String, E> {
        let original = function("third", false, vec![FnArg::Receiver, named("err")], path("Result"));
        let new_fn = logfn(&[word("Info")], original, BodyWrapper::Direct).unwrap();
        let mut out = Err(E);
        call(logger, &new_fn.block.layers, &[], &mut || {
            out = if err.0 { Err(E) } else { Ok(String::from("Hi!")) };
            outcome(&out)
        });
        out
    }

    // #[logfn_inputs(Debug)]
    // fn just_inputs(&self, err: &Tes) -> Result<String, E>
    fn just_inputs(&self, logger: &Logger, err: &Tes) -> Result<String, E> {
        let original =
            function("just_inputs", false, vec![FnArg::Receiver, named("err")], path("Result"));
        let new_fn = logfn_inputs(&[word("Debug")], original).unwrap();
        let inputs = [("self", format!("{:?}", self)), ("err", format!("{:?}", err))];
        let mut out = Err(E);
        call(logger, &new_fn.block.layers, &inputs, &mut || {
            out = if err.0 { Err(E) } else { Ok(String::from("Hi!")) };
            outcome(&out)
        });
        out
    }

    // #[logfn_inputs(Trace)]
    // #[logfn(Info)]
    // fn both(&self, err: &Tes) -> Result<String, E>
    fn both(&self, logger: &Logger, err: &Tes) -> Result<String, E> {
        let original = function("both", false, vec![FnArg::Receiver, named("err")], path("Result"));
        let with_inputs = logfn_inputs(&[word("Trace")], original).unwrap();
        let new_fn = logfn(&[word("Info")], with_inputs, BodyWrapper::Direct).unwrap();
        let inputs = [("self", format!("{:?}", self)), ("err", format!("{:?}", err))];
        let mut out = Err(E);
        call(logger, &new_fn.block.layers, &inputs, &mut || {
            let clos = || {
                self.third(logger, &err)?;
                if err.0 {
                    return Err(E);
                } else {
                    return Ok(String::from("Hi!"));
                }
            };
            out = clos();
            outcome(&out)
        });
        out
    }
}

// #[logfn(INFO)]
// async fn async_function(ok: bool) -> Result<&'static str, &'static str>
fn async_function(logger: &Logger, ok: bool) -> Result<&'static str, &'static str> {
    let original = function("async_function", true, vec![named("ok")], path("Result"));
    let new_fn = logfn(&[word("INFO")], original, BodyWrapper::Suspending).unwrap();
    assert!(new_fn.sig.asyncness);
    let mut out = Err("");
    call(logger, &new_fn.block.layers, &[], &mut || {
        out = if ok { Ok("async Ok") } else { Err("async Err") };
        outcome(&out)
    });
    out
}

#[test]
fn works() {
    let logger = Logger::new();
    wrapped_function(&logger, 5, "cool!");
    logger.assert_last_log("wrapper_function returned ()", Level::Info);
    let a = AAAAAA;
    let _ = a.yoyoy(&logger, String::from("fds"), 55, vec![1u8; 12]);
    logger.assert_last_log("yoyoy() => [0, 0, 0, 0, 0, 0, 0, 0]", Level::Info);
    let mut b = Me(None);
    let tes = Tes(false);
    b.abc(&logger, tes).unwrap();
    logger.assert_last_log("DB: \"Hi!\"", Level::Debug);
    // `b.abc` calls `third()` so we need to assert that log too.
    logger.assert_last_log("third() => \"Hi!\"", Level::Info);
    assert!(logger.is_empty())
}

#[test]
fn test_inputs() {
    let logger = Logger::new();
    let b = Me(Some(5));
    let tes = Tes(false);
    b.just_inputs(&logger, &tes).unwrap();
    logger.assert_last_log("just_inputs(self: Me(Some(5)), err: Tes(false))", Level::Debug);
    b.both(&logger, &tes).unwrap();

    // Assert `b.both` output log
    logger.assert_last_log("both() => \"Hi!\"", Level::Info);
    // `b.both` calls `third()` so we need to assert that log too
    logger.assert_last_log("third() => \"Hi!\"", Level::Info);
    // Assert `b.both` input log
    let log = logger.pop_log();
    assert_eq!(log.msg, "both(self: Me(Some(5)), err: Tes(false))");
    assert_eq!(log.level, Level::Trace);
    assert!(logger.is_empty())
}

#[test]
fn fail() {
    let logger = Logger::new();
    wrapped_function(&logger, 5, "cool!");
    logger.assert_last_log("wrapper_function returned ()", Level::Info);
    let a = AAAAAA;
    let _ = a.yoyoy(&logger, String::from("fds"), 55, vec![1u8; 12]);
    logger.assert_last_log("yoyoy() => [0, 0, 0, 0, 0, 0, 0, 0]", Level::Info);

    let mut b = Me(None);
    let tes = Tes(true);
    assert_eq!(b.abc(&logger, tes), Err(E));
    logger.assert_last_log("DB: E", Level::Trace);
    // `b.abc` calls `third()` so we need to assert that log too
    logger.assert_last_log("third() => E", Level::Info);

    assert!(logger.is_empty())
}

#[test]
fn async_works() {
    let logger = Logger::new();
    assert_eq!(async_function(&logger, true), Ok("async Ok"));
    logger.assert_last_log("async_function() => \"async Ok\"", Level::Info);
    assert_eq!(async_function(&logger, false), Err("async Err"));
    logger.assert_last_log("async_function() => \"async Err\"", Level::Info);
    assert!(logger.is_empty())
}

#[test]
fn async_works2() {
    let logger = Logger::new();
    let block = |ok: bool| async_function(&logger, ok);

    assert_eq!(block(true), Ok("async Ok"));
    logger.assert_last_log("async_function() => \"async Ok\"", Level::Info);
    assert_eq!(block(false), Err("async Err"));
    logger.assert_last_log("async_function() => \"async Err\"", Level::Info);
    assert!(logger.is_empty())
}
