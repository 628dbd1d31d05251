//! The sandbox runtime as the host sees it.
//!
//! Everything here is taken on trust: the types are the runtime's own and
//! nothing is known of what is inside them, and the functions are calls
//! into the runtime whose bodies are not proved. None of them promises
//! anything about what the guest does or whether a call succeeds, because
//! that depends on the artifact and on the guest's state.
//!
//! The runtime panics when a function, an instance or a resource is used
//! with a store other than the one it was made in, when a linker meets a
//! component of another engine, and when a store with async support is
//! called without it. The names below say which store and which engine a
//! value belongs to; each call demands that its arguments belong together
//! and says where what it returns belongs.
//!
//! A call into the guest returns when the guest does. Nothing here
//! interrupts a guest that never returns.

use vstd::prelude::*;
use wasmtime::component::types::List;
use wasmtime::component::{
    Component, ComponentExportIndex, Func, Instance, Linker, ResourceAny, Type, TypedFunc, Val,
};
use wasmtime::{Config, Engine, Store};
use wasmtime_wasi::{ResourceTable, WasiCtx, WasiCtxBuilder, WasiView};

verus! {

#[verifier::external_type_specification]
#[verifier::external_body]
pub struct ExConfig(Config);

#[verifier::external_type_specification]
#[verifier::external_body]
pub struct ExEngine(Engine);

#[verifier::external_type_specification]
#[verifier::external_body]
#[verifier::reject_recursive_types(T)]
pub struct ExStore<T>(Store<T>);

#[verifier::external_type_specification]
#[verifier::external_body]
pub struct ExComponent(Component);

#[verifier::external_type_specification]
#[verifier::external_body]
pub struct ExComponentExportIndex(ComponentExportIndex);

#[verifier::external_type_specification]
#[verifier::external_body]
#[verifier::reject_recursive_types(T)]
pub struct ExLinker<T>(Linker<T>);

#[verifier::external_type_specification]
#[verifier::external_body]
pub struct ExInstance(Instance);

#[verifier::external_type_specification]
#[verifier::external_body]
pub struct ExFunc(Func);

#[verifier::external_type_specification]
#[verifier::external_body]
#[verifier::reject_recursive_types(Params)]
#[verifier::reject_recursive_types(Return)]
pub struct ExTypedFunc<Params, Return>(TypedFunc<Params, Return>);

#[verifier::external_type_specification]
#[verifier::external_body]
pub struct ExResourceAny(ResourceAny);

#[verifier::external_type_specification]
#[verifier::external_body]
pub struct ExVal(Val);

#[verifier::external_type_specification]
#[verifier::external_body]
pub struct ExType(Type);

#[verifier::external_type_specification]
#[verifier::external_body]
pub struct ExList(List);

#[verifier::external_type_specification]
#[verifier::external_body]
pub struct ExWasiCtx(WasiCtx);

#[verifier::external_type_specification]
#[verifier::external_body]
pub struct ExResourceTable(ResourceTable);

#[verifier::external_type_specification]
#[verifier::external_body]
pub struct ExError(anyhow::Error);

/// What a store holds on behalf of the guest: the system-interface context
/// and the table of resources handed out through it.
pub struct MyState {
    pub ctx: WasiCtx,
    pub table: ResourceTable,
}

impl WasiView for MyState {
    /// The system-interface context, to read and to change in place; the
    /// table is left alone.
    fn ctx(&mut self) -> (ctx: &mut WasiCtx)
        ensures
            *ctx == old(self).ctx,
            final(self).ctx == *final(ctx),
            final(self).table == old(self).table,
    {
        &mut self.ctx
    }

    /// The resource table, to read and to change in place; the context is
    /// left alone.
    fn table(&mut self) -> (table: &mut ResourceTable)
        ensures
            *table == old(self).table,
            final(self).table == *final(table),
            final(self).ctx == old(self).ctx,
    {
        &mut self.table
    }
}

/// Whether engines made from `config` support async calls.
pub uninterp spec fn config_is_async(config: Config) -> bool;

/// Whether `config` has the component model switched on.
pub uninterp spec fn config_component_model(config: Config) -> bool;

/// Up to which size `config` has a guest memory reserved whole, where that
/// was set.
pub uninterp spec fn config_static_maximum(config: Config) -> Option<u64>;

/// How much room `config` gives a guest memory that is reserved as it
/// grows, where that was set.
pub uninterp spec fn config_growth_reserve(config: Config) -> Option<u64>;

/// Which engine this is.
pub uninterp spec fn engine_id(engine: Engine) -> int;

/// Whether `engine` supports async calls.
pub uninterp spec fn engine_is_async(engine: Engine) -> bool;

/// Whether `engine` has the component model switched on.
pub uninterp spec fn engine_component_model(engine: Engine) -> bool;

/// Up to which size `engine` reserves a guest memory whole, where that was
/// set.
pub uninterp spec fn engine_static_maximum(engine: Engine) -> Option<u64>;

/// How much room `engine` gives a guest memory that is reserved as it
/// grows, where that was set.
pub uninterp spec fn engine_growth_reserve(engine: Engine) -> Option<u64>;

/// Whether `ctx` grants what a builder grants of which nothing was asked.
pub uninterp spec fn wasi_is_default(ctx: WasiCtx) -> bool;

/// Whether `table` holds no resource.
pub uninterp spec fn table_is_empty(table: ResourceTable) -> bool;

/// The system-interface context that `store` was made with.
pub uninterp spec fn store_wasi(store: Store<MyState>) -> WasiCtx;

/// The resource table that `store` was made with.
pub uninterp spec fn store_table(store: Store<MyState>) -> ResourceTable;

/// The engine that compiled `component`.
pub uninterp spec fn component_engine(component: Component) -> int;

/// The engine that `linker` links for.
pub uninterp spec fn linker_engine(linker: Linker<MyState>) -> int;

/// Which store this is. A store stays the same store through every call
/// made in it, whatever the guest does to what it holds.
pub uninterp spec fn store_id(store: Store<MyState>) -> int;

/// The engine that `store` belongs to.
pub uninterp spec fn store_engine(store: Store<MyState>) -> int;

/// Whether `store` supports async calls.
pub uninterp spec fn store_is_async(store: Store<MyState>) -> bool;

/// The store in which `instance` was made.
pub uninterp spec fn instance_home(instance: Instance) -> int;

/// The store in which `func` was looked up.
pub uninterp spec fn func_home(func: Func) -> int;

/// The store in which a constructor was looked up.
pub uninterp spec fn constructor_home(func: TypedFunc<(), (ResourceAny,)>) -> int;

/// The store in which a `save` was looked up.
pub uninterp spec fn save_home(func: TypedFunc<(ResourceAny,), (Vec<u8>,)>) -> int;

/// The store in which a `restore` was looked up.
pub uninterp spec fn restore_home(func: TypedFunc<(ResourceAny, Vec<u8>), ()>) -> int;

/// The store whose guest made `resource`.
pub uninterp spec fn resource_home(resource: ResourceAny) -> int;

/// The export `name` of `instance`, at its root or inside the exported
/// instance `parent`, where there is one.
pub uninterp spec fn export_at(
    instance: Instance,
    parent: Option<ComponentExportIndex>,
    name: Seq<char>,
) -> Option<ComponentExportIndex>;

/// Whether the export of `instance` at `index` is a function.
pub uninterp spec fn exports_func(instance: Instance, index: ComponentExportIndex) -> bool;

/// The instance in which `func` was looked up.
pub uninterp spec fn func_instance(func: Func) -> Instance;

/// The export at which `func` was looked up.
pub uninterp spec fn func_export(func: Func) -> ComponentExportIndex;

/// Whether the function that `instance` exports at `index` takes nothing
/// and returns one resource.
pub uninterp spec fn is_constructor(instance: Instance, index: ComponentExportIndex) -> bool;

/// Whether the function that `instance` exports at `index` takes a
/// resource and returns bytes.
pub uninterp spec fn is_save(instance: Instance, index: ComponentExportIndex) -> bool;

/// Whether the function that `instance` exports at `index` takes a
/// resource and bytes and returns nothing.
pub uninterp spec fn is_restore(instance: Instance, index: ComponentExportIndex) -> bool;

/// How many parameters the function takes that `instance` exports at
/// `index`.
pub uninterp spec fn parameter_count_of(instance: Instance, index: ComponentExportIndex) -> usize;

/// The types of the results of the function that `instance` exports at
/// `index`, in their order.
pub uninterp spec fn result_types_of(instance: Instance, index: ComponentExportIndex) -> Seq<
    Type,
>;

/// Whether `ty` is a list type.
pub uninterp spec fn is_list(ty: Type) -> bool;

/// The items of `value` where it is a list.
pub uninterp spec fn items_of(value: Val) -> Option<Seq<Val>>;

/// The text of `error` followed by the texts of its causes, as `Display`
/// gives them.
pub uninterp spec fn text_of(error: anyhow::Error) -> Seq<char>;

/// `after` is `before` but for the fields given.
pub open spec fn config_but(
    before: Config,
    after: Config,
    component_model: bool,
    static_maximum: Option<u64>,
    growth_reserve: Option<u64>,
) -> bool {
    &&& config_is_async(after) == config_is_async(before)
    &&& config_component_model(after) == component_model
    &&& config_static_maximum(after) == static_maximum
    &&& config_growth_reserve(after) == growth_reserve
}

/// `after` is the store that `before` was: a call made in a store changes
/// what it holds, never which store it is.
pub open spec fn same_store(before: Store<MyState>, after: Store<MyState>) -> bool {
    &&& store_id(after) == store_id(before)
    &&& store_engine(after) == store_engine(before)
    &&& store_is_async(after) == store_is_async(before)
}

/// `Config::new`: a configuration with the runtime's defaults, among them
/// no async support and nothing set about how guest memory is reserved.
pub assume_specification[ Config::new ]() -> (config: Config)
    ensures
        !config_is_async(config),
        config_static_maximum(config) is None,
        config_growth_reserve(config) is None,
;

/// `Config::wasm_component_model`: switches the component model on or off
/// in `config`, and nothing else.
#[verifier::external_body]
pub(crate) fn set_component_model(config: &mut Config, enable: bool)
    ensures
        config_but(
            *old(config),
            *final(config),
            enable,
            config_static_maximum(*old(config)),
            config_growth_reserve(*old(config)),
        ),
{
    config.wasm_component_model(enable);
}

/// `Config::static_memory_maximum_size`: guest memories up to `bytes` get
/// their whole range reserved at once; larger ones are reserved as they
/// grow. Nothing else changes.
#[verifier::external_body]
pub(crate) fn set_static_memory_maximum_size(config: &mut Config, bytes: u64)
    ensures
        config_but(
            *old(config),
            *final(config),
            config_component_model(*old(config)),
            Some(bytes),
            config_growth_reserve(*old(config)),
        ),
{
    config.static_memory_maximum_size(bytes);
}

/// `Config::dynamic_memory_reserved_for_growth`: a guest memory that is
/// reserved as it grows gets `bytes` of room beyond what it holds. Nothing
/// else changes.
#[verifier::external_body]
pub(crate) fn set_dynamic_memory_reserved_for_growth(config: &mut Config, bytes: u64)
    ensures
        config_but(
            *old(config),
            *final(config),
            config_component_model(*old(config)),
            config_static_maximum(*old(config)),
            Some(bytes),
        ),
{
    config.dynamic_memory_reserved_for_growth(bytes);
}

/// `Engine::new`: an engine for `config`, or the reason why the
/// configuration cannot be used on this machine. The engine supports async
/// calls, has the component model on and reserves guest memory as the
/// configuration says.
pub assume_specification[ Engine::new ](config: &Config) -> (engine: Result<Engine, anyhow::Error>)
    ensures
        engine matches Ok(made) ==> {
            &&& engine_is_async(made) == config_is_async(*config)
            &&& engine_component_model(made) == config_component_model(*config)
            &&& engine_static_maximum(made) == config_static_maximum(*config)
            &&& engine_growth_reserve(made) == config_growth_reserve(*config)
        },
;

/// `WasiCtxBuilder::new` and `WasiCtxBuilder::build`: a system-interface
/// context with the builder's defaults. The builder is built once.
#[verifier::external_body]
pub(crate) fn default_wasi_ctx() -> (ctx: WasiCtx)
    ensures
        wasi_is_default(ctx),
{
    WasiCtxBuilder::new().build()
}

/// `ResourceTable::new`: an empty table.
pub assume_specification[ ResourceTable::new ]() -> (table: ResourceTable)
    ensures
        table_is_empty(table),
;

/// `Store::new`: a store of `engine` that holds `data`. Panics only where
/// the runtime cannot allocate what every store needs.
#[verifier::external_body]
pub(crate) fn new_store(engine: &Engine, data: MyState) -> (store: Store<MyState>)
    ensures
        store_engine(store) == engine_id(*engine),
        store_is_async(store) == engine_is_async(*engine),
        store_wasi(store) == data.ctx,
        store_table(store) == data.table,
{
    Store::new(engine, data)
}

/// `Component::new`: compiles `artifact`, binary or text, for `engine`, or
/// says why it cannot be compiled.
#[verifier::external_body]
pub(crate) fn compile(engine: &Engine, artifact: &[u8]) -> (compiled: Result<
    Component,
    anyhow::Error,
>)
    ensures
        compiled matches Ok(component) ==> component_engine(component) == engine_id(*engine),
{
    Component::new(engine, artifact)
}

/// `Linker::new`: a linker of `engine` that defines nothing yet.
#[verifier::external_body]
pub(crate) fn new_linker(engine: &Engine) -> (linker: Linker<MyState>)
    ensures
        linker_engine(linker) == engine_id(*engine),
{
    Linker::new(engine)
}

/// `wasmtime_wasi::add_to_linker_sync`: defines the system interface in
/// `linker`, or says which definition failed. The linker stays with its
/// engine.
#[verifier::external_body]
pub(crate) fn add_system_interface(linker: &mut Linker<MyState>) -> (added: Result<
    (),
    anyhow::Error,
>)
    ensures
        linker_engine(*final(linker)) == linker_engine(*old(linker)),
{
    wasmtime_wasi::add_to_linker_sync(linker)
}

/// `Linker::instantiate`: instantiates `component` in `store` with the
/// imports that `linker` defines, or says why not. The three are of one
/// engine and the store has no async support; the instance is at home in
/// `store`.
#[verifier::external_body]
pub(crate) fn instantiate(
    linker: &Linker<MyState>,
    store: &mut Store<MyState>,
    component: &Component,
) -> (instantiated: Result<Instance, anyhow::Error>)
    requires
        linker_engine(*linker) == component_engine(*component),
        store_engine(*old(store)) == component_engine(*component),
        !store_is_async(*old(store)),
    ensures
        same_store(*old(store), *final(store)),
        instantiated matches Ok(instance) ==> instance_home(instance) == store_id(*final(store)),
{
    linker.instantiate(store, component)
}

/// `Instance::get_export`: the index of the export `name`, at the root of
/// the instance or inside the exported instance `parent`, if there is one.
/// The instance is at home in `store`.
#[verifier::external_body]
pub(crate) fn export_index(
    instance: &Instance,
    store: &mut Store<MyState>,
    parent: Option<&ComponentExportIndex>,
    name: &str,
) -> (index: Option<ComponentExportIndex>)
    requires
        instance_home(*instance) == store_id(*old(store)),
    ensures
        same_store(*old(store), *final(store)),
        index == export_at(
            *instance,
            match parent {
                Some(inside) => Some(*inside),
                None => None,
            },
            name@,
        ),
{
    instance.get_export(store, parent, name)
}

/// `Instance::get_func`: a handle to the function exported at `index`, if
/// the export is a function. The instance is at home in `store`, and so is
/// the handle, which remembers where it was looked up.
#[verifier::external_body]
pub(crate) fn exported_func(
    instance: &Instance,
    store: &mut Store<MyState>,
    index: &ComponentExportIndex,
) -> (func: Option<Func>)
    requires
        instance_home(*instance) == store_id(*old(store)),
    ensures
        same_store(*old(store), *final(store)),
        func is Some <==> exports_func(*instance, *index),
        func matches Some(function) ==> {
            &&& func_home(function) == store_id(*final(store))
            &&& func_instance(function) == *instance
            &&& func_export(function) == *index
        },
{
    instance.get_func(store, index)
}

/// `Func::typed` at the constructor's type: `func` as a function from
/// nothing to a resource, or the mismatch. The function is at home in
/// `store`, typed or not.
#[verifier::external_body]
pub(crate) fn typed_constructor(func: &Func, store: &Store<MyState>) -> (typed: Result<
    TypedFunc<(), (ResourceAny,)>,
    anyhow::Error,
>)
    requires
        func_home(*func) == store_id(*store),
    ensures
        typed is Ok <==> is_constructor(func_instance(*func), func_export(*func)),
        typed matches Ok(constructor) ==> constructor_home(constructor) == store_id(*store),
{
    func.typed(store)
}

/// `Func::typed` at the type of `save`: `func` as a function from a
/// resource to bytes, or the mismatch. The function is at home in `store`,
/// typed or not.
#[verifier::external_body]
pub(crate) fn typed_save(func: &Func, store: &Store<MyState>) -> (typed: Result<
    TypedFunc<(ResourceAny,), (Vec<u8>,)>,
    anyhow::Error,
>)
    requires
        func_home(*func) == store_id(*store),
    ensures
        typed is Ok <==> is_save(func_instance(*func), func_export(*func)),
        typed matches Ok(save) ==> save_home(save) == store_id(*store),
{
    func.typed(store)
}

/// `Func::typed` at the type of `restore`: `func` as a function from a
/// resource and bytes to nothing, or the mismatch. The function is at home
/// in `store`, typed or not.
#[verifier::external_body]
pub(crate) fn typed_restore(func: &Func, store: &Store<MyState>) -> (typed: Result<
    TypedFunc<(ResourceAny, Vec<u8>), ()>,
    anyhow::Error,
>)
    requires
        func_home(*func) == store_id(*store),
    ensures
        typed is Ok <==> is_restore(func_instance(*func), func_export(*func)),
        typed matches Ok(restore) ==> restore_home(restore) == store_id(*store),
{
    func.typed(store)
}

/// `Func::params`: how many parameters `func` takes. The function is at
/// home in `store`.
#[verifier::external_body]
pub(crate) fn parameter_count(func: &Func, store: &Store<MyState>) -> (count: usize)
    requires
        func_home(*func) == store_id(*store),
    ensures
        count == parameter_count_of(func_instance(*func), func_export(*func)),
{
    func.params(store).len()
}

/// `Func::results`: the types of the results `func` returns, in their
/// order. The function is at home in `store`.
#[verifier::external_body]
pub(crate) fn result_types(func: &Func, store: &Store<MyState>) -> (types: Vec<Type>)
    requires
        func_home(*func) == store_id(*store),
    ensures
        types@ == result_types_of(func_instance(*func), func_export(*func)),
{
    func.results(store).into_vec()
}

/// Takes the list type out of a `Type::List`; any other type holds none.
#[verifier::external_body]
pub(crate) fn as_list(ty: Type) -> (list: Option<List>)
    ensures
        list is Some <==> is_list(ty),
{
    match ty {
        Type::List(list) => Some(list),
        _ => None,
    }
}

/// `TypedFunc::call`, then `TypedFunc::post_return`: runs the guest's
/// constructor. The function is at home in `store`, which has no async
/// support; the resource it returns is at home there too.
#[verifier::external_body]
pub(crate) fn call_constructor(
    func: &TypedFunc<(), (ResourceAny,)>,
    store: &mut Store<MyState>,
) -> (constructed: Result<ResourceAny, anyhow::Error>)
    requires
        constructor_home(*func) == store_id(*old(store)),
        !store_is_async(*old(store)),
    ensures
        same_store(*old(store), *final(store)),
        constructed matches Ok(resource) ==> resource_home(resource) == store_id(*final(store)),
{
    let (resource,) = func.call(&mut *store, ())?;
    func.post_return(store)?;
    Ok(resource)
}

/// `TypedFunc::call`, then `TypedFunc::post_return`: asks the guest object
/// `this` for its state. Function and object are at home in `store`, which
/// has no async support.
#[verifier::external_body]
pub(crate) fn call_save(
    func: &TypedFunc<(ResourceAny,), (Vec<u8>,)>,
    store: &mut Store<MyState>,
    this: ResourceAny,
) -> (saved: Result<Vec<u8>, anyhow::Error>)
    requires
        save_home(*func) == store_id(*old(store)),
        resource_home(this) == store_id(*old(store)),
        !store_is_async(*old(store)),
    ensures
        same_store(*old(store), *final(store)),
{
    let (blob,) = func.call(&mut *store, (this,))?;
    func.post_return(store)?;
    Ok(blob)
}

/// `TypedFunc::call`, then `TypedFunc::post_return`: hands `data` to the
/// guest object `this`. Function and object are at home in `store`, which
/// has no async support.
#[verifier::external_body]
pub(crate) fn call_restore(
    func: &TypedFunc<(ResourceAny, Vec<u8>), ()>,
    store: &mut Store<MyState>,
    this: ResourceAny,
    data: Vec<u8>,
) -> (restored: Result<(), anyhow::Error>)
    requires
        restore_home(*func) == store_id(*old(store)),
        resource_home(this) == store_id(*old(store)),
        !store_is_async(*old(store)),
    ensures
        same_store(*old(store), *final(store)),
{
    func.call(&mut *store, (this, data))?;
    func.post_return(store)
}

/// `Func::call`, then `Func::post_return`: runs one frame on the guest
/// object `this` with the two inputs, and returns the one value that comes
/// back. Function and object are at home in `store`, which has no async
/// support.
#[verifier::external_body]
pub(crate) fn call_run_frame(
    func: &Func,
    store: &mut Store<MyState>,
    this: ResourceAny,
    mouse: Val,
    key: Val,
) -> (returned: Result<Val, anyhow::Error>)
    requires
        func_home(*func) == store_id(*old(store)),
        resource_home(this) == store_id(*old(store)),
        !store_is_async(*old(store)),
    ensures
        same_store(*old(store), *final(store)),
{
    let mut results = [Val::Bool(false)];
    func.call(&mut *store, &[Val::Resource(this), mouse, key], &mut results)?;
    func.post_return(store)?;
    let [commands] = results;
    Ok(commands)
}

/// Takes the items out of a `Val::List`, in their order; any other value
/// has none.
#[verifier::external_body]
pub(crate) fn list_items(value: Val) -> (items: Option<Vec<Val>>)
    ensures
        match items {
            Some(list) => items_of(value) == Some(list@),
            None => items_of(value) is None,
        },
{
    match value {
        Val::List(items) => Some(items),
        _ => None,
    }
}

/// `Display` for `anyhow::Error`, in its alternate form: the text of
/// `error`, then a colon and the text of each of its causes in turn.
#[verifier::external_body]
pub(crate) fn describe(error: &anyhow::Error) -> (text: String)
    ensures
        text@ == text_of(*error),
{
    format!("{error:#}")
}

} // verus!
