use lute_runtime::flags::LuteStdLib;
use lute_runtime::modules::module_order;
use lute_runtime::modules::selected_modules;
use lute_runtime::modules::LuteModule;
use lute_runtime::runtime::Lua;
use lute_runtime::runtime::LuteError;

fn bound_names(lua: &Lua) -> Vec<&'static str> {
    let mut names = Vec::new();
    for m in module_order() {
        if lua.global_is_bound(m) {
            names.push(m.global_name());
        }
    }
    names
}

#[test]
fn fresh_instance_is_unloaded_with_no_globals() {
    let lua = Lua::new();
    assert_eq!(lua.is_lute_loaded(), Ok(false));
    assert_eq!(bound_names(&lua), Vec::<&str>::new());
}

#[test]
fn load_before_setup_errors_and_binds_nothing() {
    let mut lua = Lua::new();
    assert_eq!(lua.is_lute_loaded(), Ok(false));
    let sel = LuteStdLib::module(LuteModule::Crypto).union(LuteStdLib::module(LuteModule::Fs));
    assert_eq!(lua.load_lute_LuteStdLib(sel), Err(LuteError::NotLoaded));
    // No module attachment happened: no global bindings appear.
    assert_eq!(bound_names(&lua), Vec::<&str>::new());
    assert_eq!(lua.is_lute_loaded(), Ok(false));
}

#[test]
fn setup_loads_and_destroy_unloads() {
    let mut lua = Lua::new();
    assert_eq!(lua.setup_lute_runtime(), Ok(()));
    assert_eq!(lua.is_lute_loaded(), Ok(true));
    assert_eq!(lua.destroy_lute_runtime(), Ok(()));
    assert_eq!(lua.is_lute_loaded(), Ok(false));
}

#[test]
fn repeated_loaded_queries_are_pure() {
    let mut lua = Lua::new();
    for _ in 0..5 {
        assert_eq!(lua.is_lute_loaded(), Ok(false));
    }
    assert_eq!(lua.setup_lute_runtime(), Ok(()));
    for _ in 0..5 {
        assert_eq!(lua.is_lute_loaded(), Ok(true));
    }
    // The queries changed nothing: loading still works and binds as usual.
    assert_eq!(lua.load_lute_LuteStdLib(LuteStdLib::module(LuteModule::Vm)), Ok(()));
    assert_eq!(bound_names(&lua), vec!["vm"]);
}

#[test]
fn load_crypto_and_time_binds_exactly_those_names() {
    let mut lua = Lua::new();
    assert_eq!(lua.setup_lute_runtime(), Ok(()));
    let sel = LuteStdLib::module(LuteModule::Crypto).union(LuteStdLib::module(LuteModule::Time));
    assert_eq!(lua.load_lute_LuteStdLib(sel), Ok(()));
    assert_eq!(bound_names(&lua), vec!["crypto", "time"]);
    assert!(!lua.global_is_bound(LuteModule::Net));
}

#[test]
fn load_all_binds_all_nine_fixed_names() {
    let mut lua = Lua::new();
    assert_eq!(lua.setup_lute_runtime(), Ok(()));
    assert_eq!(lua.load_lute_LuteStdLib(LuteStdLib::all_with_reserved()), Ok(()));
    assert_eq!(
        bound_names(&lua),
        vec!["crypto", "fs", "luau", "net", "process", "task", "vm", "system", "time"]
    );
}

#[test]
fn load_order_does_not_change_the_outcome() {
    let crypto = LuteStdLib::module(LuteModule::Crypto);
    let time = LuteStdLib::module(LuteModule::Time);

    let mut one = Lua::new();
    assert_eq!(one.setup_lute_runtime(), Ok(()));
    assert_eq!(one.load_lute_LuteStdLib(crypto.union(time)), Ok(()));

    let mut two = Lua::new();
    assert_eq!(two.setup_lute_runtime(), Ok(()));
    assert_eq!(two.load_lute_LuteStdLib(time.union(crypto)), Ok(()));

    assert_eq!(bound_names(&one), bound_names(&two));
}

#[test]
fn loading_is_cumulative_across_calls() {
    let mut lua = Lua::new();
    assert_eq!(lua.setup_lute_runtime(), Ok(()));
    assert_eq!(lua.load_lute_LuteStdLib(LuteStdLib::module(LuteModule::Fs)), Ok(()));
    assert_eq!(lua.load_lute_LuteStdLib(LuteStdLib::module(LuteModule::Task)), Ok(()));
    assert_eq!(bound_names(&lua), vec!["fs", "task"]);
}

#[test]
fn loading_the_empty_selection_binds_nothing() {
    let mut lua = Lua::new();
    assert_eq!(lua.setup_lute_runtime(), Ok(()));
    assert_eq!(lua.load_lute_LuteStdLib(LuteStdLib::none()), Ok(()));
    assert_eq!(bound_names(&lua), Vec::<&str>::new());
}

#[test]
fn globals_survive_destroy() {
    let mut lua = Lua::new();
    assert_eq!(lua.setup_lute_runtime(), Ok(()));
    assert_eq!(lua.load_lute_LuteStdLib(LuteStdLib::module(LuteModule::System)), Ok(()));
    assert_eq!(lua.destroy_lute_runtime(), Ok(()));
    // Destroying the runtime detaches it but does not unbind globals.
    assert_eq!(lua.is_lute_loaded(), Ok(false));
    assert_eq!(bound_names(&lua), vec!["system"]);
}

#[test]
fn plan_lists_selected_modules_in_fixed_order() {
    let crypto = LuteStdLib::module(LuteModule::Crypto);
    let time = LuteStdLib::module(LuteModule::Time);
    assert_eq!(selected_modules(crypto.union(time)), vec![LuteModule::Crypto, LuteModule::Time]);
    assert_eq!(selected_modules(time.union(crypto)), vec![LuteModule::Crypto, LuteModule::Time]);
    assert_eq!(selected_modules(LuteStdLib::none()), Vec::<LuteModule>::new());
    assert_eq!(selected_modules(LuteStdLib::all_with_reserved()), module_order());
}

#[test]
fn completed_plan_reports_success_and_binds_all_planned() {
    let mut lua = Lua::new();
    assert_eq!(lua.setup_lute_runtime(), Ok(()));
    let sel = LuteStdLib::module(LuteModule::Fs).union(LuteStdLib::module(LuteModule::Net));
    let plan = selected_modules(sel);
    assert_eq!(lua.record_attachments(&plan, plan.len()), Ok(()));
    assert_eq!(bound_names(&lua), vec!["fs", "net"]);
}

#[test]
fn faulted_plan_keeps_earlier_attachments_and_reports_the_fault() {
    let mut lua = Lua::new();
    assert_eq!(lua.setup_lute_runtime(), Ok(()));
    let sel = LuteStdLib::module(LuteModule::Fs).union(LuteStdLib::module(LuteModule::Net));
    let plan = selected_modules(sel);
    // The host faulted after the first attachment: fs stays bound, net is
    // never attached, and the batch reports a host-boundary fault.
    assert_eq!(lua.record_attachments(&plan, 1), Err(LuteError::HostBoundaryFault));
    assert_eq!(bound_names(&lua), vec!["fs"]);
    assert_eq!(lua.is_lute_loaded(), Ok(true));
}

#[test]
fn fixed_global_names_match_the_module_table() {
    let names: Vec<&'static str> = module_order().into_iter().map(|m| m.global_name()).collect();
    assert_eq!(names, vec!["crypto", "fs", "luau", "net", "process", "task", "vm", "system", "time"]);
}
