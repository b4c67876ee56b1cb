use log_derive::item::{Block, Layer, LogArg, LogCall, Wrapper};

fn statement() -> LogCall {
    LogCall {
        level: "Warn".to_string(),
        fmt: "f(a: {}) took {}".to_string(),
        args: vec![LogArg::Input("a".to_string()), LogArg::Elapsed],
        debug: false,
    }
}

fn wrapper() -> Wrapper {
    Wrapper {
        suspending: false,
        timed: true,
        branching: true,
        ok_expr: Some(LogCall {
            level: "Info".to_string(),
            fmt: "ok {}".to_string(),
            args: vec![LogArg::Value],
            debug: true,
        }),
        err_expr: None,
    }
}

#[test]
fn copies_are_equal() {
    for arg in [LogArg::Value, LogArg::Failure, LogArg::Elapsed, LogArg::Input("x".to_string())] {
        assert_eq!(arg.clone(), arg);
    }
    assert_eq!(statement().clone(), statement());
    assert_eq!(wrapper().clone(), wrapper());
    let layers = vec![Layer::Log(statement()), Layer::Wrap(wrapper())];
    assert_eq!(layers[0].clone(), layers[0]);
    assert_eq!(layers[1].clone(), layers[1]);
    let block = Block { source: "a + 1".to_string(), layers };
    let copy = block.clone();
    assert_eq!(copy, block);
    assert_eq!(copy.layers.len(), 2);
}

#[test]
fn a_layer_goes_around_the_others() {
    let block = Block { source: "a + 1".to_string(), layers: Vec::new() };
    let block = block.under(Layer::Log(statement()));
    assert_eq!(block.layers, vec![Layer::Log(statement())]);
    let block = block.under(Layer::Wrap(wrapper()));
    assert_eq!(block.layers, vec![Layer::Log(statement()), Layer::Wrap(wrapper())]);
    assert_eq!(block.source, "a + 1");
}

#[test]
fn a_body_without_layers_is_its_source() {
    let block = Block { source: "a + 1".to_string(), layers: Vec::new() };
    assert_eq!(block.render_stmts(), "a + 1");
    assert_eq!(block.render(), "{ a + 1 }");
    let empty = Block { source: String::new(), layers: Vec::new() };
    assert_eq!(empty.render(), "{  }");
}

#[test]
fn arguments_as_they_are_and_in_debug_form() {
    assert_eq!(
        statement().render(),
        "log::log!(log::Level::Warn, \"f(a: {}) took {}\", a, format_args!(\"{:?}\", ts))"
    );
    let mut shown = statement();
    shown.debug = true;
    assert_eq!(
        shown.render(),
        "log::log!(log::Level::Warn, \"f(a: {}) took {}\", \
         format_args!(\"{:?}\", a), format_args!(\"{:?}\", ts))"
    );
    let bare = LogCall {
        level: "Error".to_string(),
        fmt: String::new(),
        args: vec![LogArg::Failure, LogArg::Value],
        debug: false,
    };
    assert_eq!(bare.render(), "log::log!(log::Level::Error, \"\", err, result)");
}

#[test]
fn layers_are_written_from_the_inside_out() {
    let block = Block {
        source: "a + 1".to_string(),
        layers: vec![Layer::Log(statement()), Layer::Wrap(wrapper())],
    };
    assert_eq!(
        block.render_stmts(),
        "let instant = std::time::Instant::now(); let result = (move || { \
         log::log!(log::Level::Warn, \"f(a: {}) took {}\", a, format_args!(\"{:?}\", ts)); \
         a + 1 })(); let ts = instant.elapsed(); \
         result.map(|result| { \
         log::log!(log::Level::Info, \"ok {}\", format_args!(\"{:?}\", result)); result })\
         .map_err(|err| { (); err })"
    );
    assert_eq!(block.render(), format!("{{ {} }}", block.render_stmts()));
}
