//! One generation of the guest: its execution environment, the component
//! instantiated in it, and the game instance constructed from that.
//!
//! The three come into being in this order and each step consumes the one
//! before, so that a game instance always travels with the store it lives
//! in, and an environment never holds more than one game instance.

use crate::binding::{
    add_system_interface, as_list, call_constructor, call_restore, call_run_frame, call_save,
    compile, config_component_model, config_growth_reserve, config_is_async,
    config_static_maximum, constructor_home, default_wasi_ctx, describe, engine_component_model,
    engine_growth_reserve, engine_id, engine_is_async, engine_static_maximum, export_at,
    export_index, exported_func, exports_func, func_export, func_home, func_instance,
    instance_home, instantiate, is_constructor,
    is_list, is_restore, is_save, items_of, list_items, new_linker, new_store, parameter_count,
    parameter_count_of, resource_home, restore_home, result_types, result_types_of, same_store,
    save_home, set_component_model, set_dynamic_memory_reserved_for_growth,
    set_static_memory_maximum_size, store_engine, store_id, store_is_async, store_table,
    store_wasi, table_is_empty, text_of, typed_constructor, typed_restore, typed_save,
    wasi_is_default, MyState,
};
use crate::error::{
    BindError, ConstructError, FrameError, LoadError, LoadFailure, RestoreError, SaveError,
};
use vstd::prelude::*;
use wasmtime::component::{ComponentExportIndex, Func, Instance, ResourceAny, TypedFunc, Val};
use wasmtime::{Config, Engine, Store};
use wasmtime_wasi::ResourceTable;

verus! {

/// The interface a guest exports.
pub const GAME_API: &'static str = "example:host/game-api";

/// The guest's constructor: no arguments, one game instance.
pub const CONSTRUCTOR: &'static str = "[constructor]game-instance";

/// The per-frame export: the instance, the mouse and the keyboard in, a
/// list of render commands out.
pub const RUN_FRAME: &'static str = "[method]game-instance.run-frame";

/// The export that serializes the instance.
pub const SAVE: &'static str = "[method]game-instance.save";

/// The export that reads a serialized state into the instance.
pub const RESTORE: &'static str = "[method]game-instance.restore";

/// How much address space an environment sets aside for a guest memory.
#[derive(Clone, Copy, Debug, PartialEq, Eq, Structural)]
pub enum Reservation {
    /// The runtime's own choice: on a 64-bit machine the whole range a guest
    /// can address, so that its accesses need no bounds checks.
    Whole,
    /// What the memory holds plus `growth` bytes, with checked accesses; for
    /// a host that runs under an address-space limit.
    Compact { growth: u64 },
}

/// Whether a memory setting of the runtime is what `reservation` asks for:
/// nothing set for the runtime's own choice; for the compact form, no
/// memory reserved whole and the room to grow as given.
pub open spec fn reserves(
    static_maximum: Option<u64>,
    growth_reserve: Option<u64>,
    reservation: Reservation,
) -> bool {
    match reservation {
        Reservation::Whole => static_maximum is None && growth_reserve is None,
        Reservation::Compact { growth } => static_maximum == Some(0u64) && growth_reserve == Some(
            growth,
        ),
    }
}

/// Whether `engine` is one that a host's environment stands on: without
/// async support, with the component model on, and reserving guest memory
/// as `reservation` says.
pub open spec fn hosts(engine: Engine, reservation: Reservation) -> bool {
    &&& !engine_is_async(engine)
    &&& engine_component_model(engine)
    &&& reserves(engine_static_maximum(engine), engine_growth_reserve(engine), reservation)
}

/// The configuration of an environment: the runtime's defaults, with the
/// component model switched on and guest memory reserved as `reservation`
/// says.
pub fn configuration(reservation: Reservation) -> (config: Config)
    ensures
        !config_is_async(config),
        config_component_model(config),
        reserves(config_static_maximum(config), config_growth_reserve(config), reservation),
{
    let mut config = Config::new();
    set_component_model(&mut config, true);
    match reservation {
        Reservation::Whole => {},
        Reservation::Compact { growth } => {
            set_static_memory_maximum_size(&mut config, 0);
            set_dynamic_memory_reserved_for_growth(&mut config, growth);
        },
    }
    config
}

/// What stays the same of an environment through everything that runs in
/// it: its engine, which store it holds, and how it reserves guest memory.
pub struct Environment {
    pub engine: Engine,
    pub store: int,
    pub reservation: Reservation,
}

/// What stays the same of a guest object through every call made on it: the
/// resource that stands for it, and the environment it lives in.
pub struct Resident {
    pub resource: ResourceAny,
    pub environment: Environment,
}

/// An execution environment: an engine, and a store in it that grants the
/// guest the system interface.
pub struct WebAssemblyContext {
    store: Store<MyState>,
    engine: Engine,
    reservation: Reservation,
}

impl View for WebAssemblyContext {
    type V = Environment;

    closed spec fn view(&self) -> Environment {
        Environment {
            engine: self.engine,
            store: store_id(self.store),
            reservation: self.reservation,
        }
    }
}

/// What a call into the runtime comes to where its failure means that the
/// artifact cannot be loaded: the value where there is one, and otherwise
/// a `LoadError` with the text of the runtime's error.
pub fn load_stage<T>(outcome: Result<T, anyhow::Error>) -> (staged: Result<T, LoadFailure>)
    ensures
        match outcome {
            Ok(value) => staged == Ok::<T, LoadFailure>(value),
            Err(error) => staged matches Err(LoadFailure::Load(e)) && e.message@ == text_of(
                error,
            ),
        },
{
    match outcome {
        Ok(value) => Ok(value),
        Err(error) => Err(LoadFailure::Load(LoadError { message: describe(&error) })),
    }
}

impl WebAssemblyContext {
    /// The engine is one to host on, and the store is of that engine and
    /// is called without async support.
    pub closed spec fn wf(&self) -> bool {
        &&& hosts(self.engine, self.reservation)
        &&& store_engine(self.store) == engine_id(self.engine)
        &&& !store_is_async(self.store)
    }

    /// The store was made with the default system-interface context and an
    /// empty resource table.
    pub closed spec fn fresh(&self) -> bool {
        &&& wasi_is_default(store_wasi(self.store))
        &&& table_is_empty(store_table(self.store))
    }

    /// What soundness says of the engine, for callers.
    pub proof fn lemma_hosts(&self)
        requires
            self.wf(),
        ensures
            hosts(self@.engine, self@.reservation),
    {
    }

    /// An environment around the outcome of making an engine: a fresh store
    /// in the engine where there is one, and otherwise a `LoadError` with
    /// the text of the runtime's error.
    pub fn around(made: Result<Engine, anyhow::Error>, reservation: Reservation) -> (loaded:
        Result<WebAssemblyContext, LoadError>)
        ensures
            match made {
                Ok(engine) => loaded matches Ok(context) && context@.engine == engine
                    && context@.reservation == reservation && context.fresh() && (hosts(
                    engine,
                    reservation,
                ) ==> context.wf()),
                Err(error) => loaded matches Err(e) && e.message@ == text_of(error),
            },
    {
        match made {
            Ok(engine) => {
                let state = MyState { ctx: default_wasi_ctx(), table: ResourceTable::new() };
                let store = new_store(&engine, state);
                Ok(WebAssemblyContext { store, engine, reservation })
            },
            Err(error) => Err(LoadError { message: describe(&error) }),
        }
    }

    /// A fresh environment with the component model switched on and the
    /// runtime's own memory reservation.
    pub fn load() -> (loaded: Result<WebAssemblyContext, LoadError>)
        ensures
            loaded matches Ok(context) ==> context.wf() && context.fresh() && context@.reservation
                == Reservation::Whole && hosts(context@.engine, Reservation::Whole),
    {
        WebAssemblyContext::load_reserving(Reservation::Whole)
    }

    /// A fresh environment with the component model switched on, which
    /// reserves address space for guest memories as `reservation` says.
    pub fn load_reserving(reservation: Reservation) -> (loaded: Result<
        WebAssemblyContext,
        LoadError,
    >)
        ensures
            loaded matches Ok(context) ==> context.wf() && context.fresh() && context@.reservation
                == reservation && hosts(context@.engine, reservation),
    {
        let config = configuration(reservation);
        WebAssemblyContext::around(Engine::new(&config), reservation)
    }
}

/// The guest's four exports, resolved in one instance.
struct GameApi {
    constructor: TypedFunc<(), (ResourceAny,)>,
    run_frame: Func,
    save: TypedFunc<(ResourceAny,), (Vec<u8>,)>,
    restore: TypedFunc<(ResourceAny, Vec<u8>), ()>,
}

/// Whether the function that `instance` exports at `index` has the shape
/// of the per-frame export: three parameters and one result, a list.
pub open spec fn shaped(instance: Instance, index: ComponentExportIndex) -> bool {
    &&& parameter_count_of(instance, index) == 3
    &&& result_types_of(instance, index).len() == 1
    &&& is_list(result_types_of(instance, index)[0])
}

impl GameApi {
    /// All four exports were looked up in the store `home`, and the
    /// per-frame export has its shape.
    spec fn wf(&self, home: int) -> bool {
        &&& constructor_home(self.constructor) == home
        &&& func_home(self.run_frame) == home
        &&& shaped(func_instance(self.run_frame), func_export(self.run_frame))
        &&& save_home(self.save) == home
        &&& restore_home(self.restore) == home
    }
}

/// Whether `name` is one of the names the game contract is made of.
pub open spec fn contract_name(name: Seq<char>) -> bool {
    ||| name == GAME_API@
    ||| name == CONSTRUCTOR@
    ||| name == RUN_FRAME@
    ||| name == SAVE@
    ||| name == RESTORE@
}

/// Where `instance` exports a function under `name` inside the exported
/// instance `interface`, if it does.
pub open spec fn exported(instance: Instance, interface: ComponentExportIndex, name: Seq<char>)
    -> Option<ComponentExportIndex> {
    match export_at(instance, Some(interface), name) {
        Some(index) => if exports_func(instance, index) {
            Some(index)
        } else {
            None
        },
        None => None,
    }
}

/// The first thing that `instance` lacks of the game contract: the
/// interface; then, inside it, the constructor, the per-frame export, `save`
/// and `restore` in this order, each missing, no function, or not of its
/// type. `None` where the contract is met.
pub open spec fn blamed(instance: Instance) -> Option<Seq<char>> {
    match export_at(instance, None, GAME_API@) {
        None => Some(GAME_API@),
        Some(interface) => {
            let constructor = exported(instance, interface, CONSTRUCTOR@);
            let run_frame = exported(instance, interface, RUN_FRAME@);
            let save = exported(instance, interface, SAVE@);
            let restore = exported(instance, interface, RESTORE@);
            if !(constructor matches Some(index) && is_constructor(instance, index)) {
                Some(CONSTRUCTOR@)
            } else if !(run_frame matches Some(index) && shaped(instance, index)) {
                Some(RUN_FRAME@)
            } else if !(save matches Some(index) && is_save(instance, index)) {
                Some(SAVE@)
            } else if !(restore matches Some(index) && is_restore(instance, index)) {
                Some(RESTORE@)
            } else {
                None
            }
        },
    }
}

/// A bind error for an export that is not there, is no function, or has
/// not the shape asked for.
fn missing(export: &str) -> (error: BindError)
    ensures
        error.export@ == export@,
        error.message@ == export@,
{
    BindError { export: export.to_owned(), message: export.to_owned() }
}

/// What a lookup of the export `name` comes to: the function where one was
/// found, and otherwise an error that blames `name`.
fn found(name: &str, func: Option<Func>) -> (found: Result<Func, BindError>)
    ensures
        match func {
            Some(function) => found == Ok::<Func, BindError>(function),
            None => found matches Err(e) && e.export@ == name@ && e.message@ == name@,
        },
{
    match func {
        Some(function) => Ok(function),
        None => Err(missing(name)),
    }
}

/// What holding the export `name` to its type comes to: the typed function
/// where the type is right, and otherwise an error that blames `name` with
/// the text of the runtime's error.
pub fn typed_export<T>(name: &str, typed: Result<T, anyhow::Error>) -> (held: Result<
    T,
    BindError,
>)
    ensures
        match typed {
            Ok(function) => held == Ok::<T, BindError>(function),
            Err(error) => held matches Err(e) && e.export@ == name@ && e.message@ == text_of(
                error,
            ),
        },
{
    match typed {
        Ok(function) => Ok(function),
        Err(error) => Err(BindError { export: name.to_owned(), message: describe(&error) }),
    }
}

/// Whether a function with this many parameters and results, the last of
/// them a list or not, can be the per-frame export: it takes the instance,
/// the mouse and the keyboard, and returns one list, the render commands.
pub open spec fn frame_shaped(params: usize, results: usize, returns_list: bool) -> bool {
    params == 3 && results == 1 && returns_list
}

/// Whether a function with this many parameters and results, the last of
/// them a list or not, can be the per-frame export.
pub fn has_frame_shape(params: usize, results: usize, returns_list: bool) -> (shaped: bool)
    ensures
        shaped == frame_shaped(params, results, returns_list),
{
    params == 3 && results == 1 && returns_list
}

/// What holding the per-frame export to its shape comes to: the function
/// where it takes three parameters and returns one list, and otherwise an
/// error that blames the export.
fn frame_export(func: Func, params: usize, results: usize, returns_list: bool) -> (held:
    Result<Func, BindError>)
    ensures
        match held {
            Ok(function) => frame_shaped(params, results, returns_list) && function == func,
            Err(e) => !frame_shaped(params, results, returns_list) && e.export@ == RUN_FRAME@
                && e.message@ == RUN_FRAME@,
        },
{
    if has_frame_shape(params, results, returns_list) {
        Ok(func)
    } else {
        Err(missing(RUN_FRAME))
    }
}

/// The function that `interface` exports under `name`, at home in `store`.
/// Where there is no such export, or it is no function, the error blames
/// `name`.
fn resolve(
    instance: &Instance,
    store: &mut Store<MyState>,
    interface: &ComponentExportIndex,
    name: &str,
) -> (resolved: Result<Func, BindError>)
    requires
        instance_home(*instance) == store_id(*old(store)),
    ensures
        same_store(*old(store), *final(store)),
        match exported(*instance, *interface, name@) {
            Some(index) => resolved matches Ok(function) && func_instance(function) == *instance
                && func_export(function) == index,
            None => resolved matches Err(e) && e.export@ == name@ && e.message@ == name@,
        },
        resolved matches Ok(function) ==> func_home(function) == store_id(*final(store)),
{
    match export_index(instance, store, Some(interface), name) {
        Some(index) => found(name, exported_func(instance, store, &index)),
        None => found(name, None),
    }
}

/// The per-frame export of `interface`, held to its shape and at home in
/// `store`.
fn resolve_frame(instance: &Instance, store: &mut Store<MyState>, interface: &ComponentExportIndex)
    -> (resolved: Result<Func, BindError>)
    requires
        instance_home(*instance) == store_id(*old(store)),
    ensures
        same_store(*old(store), *final(store)),
        match exported(*instance, *interface, RUN_FRAME@) {
            Some(index) => if shaped(*instance, index) {
                resolved matches Ok(function) && func_instance(function) == *instance
                    && func_export(function) == index
            } else {
                resolved matches Err(e) && e.export@ == RUN_FRAME@ && e.message@ == RUN_FRAME@
            },
            None => resolved matches Err(e) && e.export@ == RUN_FRAME@ && e.message@
                == RUN_FRAME@,
        },
        resolved matches Ok(function) ==> func_home(function) == store_id(*final(store)),
{
    match resolve(instance, store, interface, RUN_FRAME) {
        Ok(func) => {
            let params = parameter_count(&func, store);
            let mut results = result_types(&func, store);
            let count = results.len();
            let returns_list = match results.pop() {
                Some(last) => as_list(last).is_some(),
                None => false,
            };
            frame_export(func, params, count, returns_list)
        },
        Err(error) => Err(error),
    }
}

impl GameApi {
    /// Resolves the four exports in `instance` and holds each to its type.
    /// What is resolved is at home in `store`. Binding succeeds exactly
    /// where the instance meets the game contract, and an error blames the
    /// first export that does not.
    fn bind(instance: &Instance, store: &mut Store<MyState>) -> (bound: Result<
        GameApi,
        BindError,
    >)
        requires
            instance_home(*instance) == store_id(*old(store)),
        ensures
            same_store(*old(store), *final(store)),
            bound is Ok <==> blamed(*instance) is None,
            bound matches Ok(api) ==> api.wf(store_id(*final(store))),
            bound matches Err(e) ==> blamed(*instance) == Some(e.export@) && contract_name(
                e.export@,
            ),
    {
        let interface = match export_index(instance, store, None, GAME_API) {
            Some(index) => index,
            None => {
                return Err(missing(GAME_API));
            },
        };
        let constructor = match resolve(instance, store, &interface, CONSTRUCTOR) {
            Ok(func) => match typed_export(CONSTRUCTOR, typed_constructor(&func, store)) {
                Ok(typed) => typed,
                Err(error) => {
                    return Err(error);
                },
            },
            Err(error) => {
                return Err(error);
            },
        };
        let run_frame = match resolve_frame(instance, store, &interface) {
            Ok(func) => func,
            Err(error) => {
                return Err(error);
            },
        };
        let save = match resolve(instance, store, &interface, SAVE) {
            Ok(func) => match typed_export(SAVE, typed_save(&func, store)) {
                Ok(typed) => typed,
                Err(error) => {
                    return Err(error);
                },
            },
            Err(error) => {
                return Err(error);
            },
        };
        let restore = match resolve(instance, store, &interface, RESTORE) {
            Ok(func) => match typed_export(RESTORE, typed_restore(&func, store)) {
                Ok(typed) => typed,
                Err(error) => {
                    return Err(error);
                },
            },
            Err(error) => {
                return Err(error);
            },
        };
        Ok(GameApi { constructor, run_frame, save, restore })
    }
}

/// A component instantiated in its environment, with the game contract
/// resolved.
pub struct WebAssemblyInstance {
    component: Instance,
    bindings: GameApi,
    context: WebAssemblyContext,
}

impl WebAssemblyInstance {
    /// The environment the component is instantiated in.
    pub closed spec fn environment(&self) -> Environment {
        self.context@
    }

    /// The instance of the component that the exports were resolved in.
    pub closed spec fn component(&self) -> Instance {
        self.component
    }

    /// The environment is sound, the component's instance meets the game
    /// contract, and its exports were resolved in the environment's store.
    pub closed spec fn wf(&self) -> bool {
        &&& self.context.wf()
        &&& blamed(self.component) is None
        &&& self.bindings.wf(store_id(self.context.store))
    }

    /// What soundness says of the component, for callers.
    pub proof fn lemma_meets_the_contract(&self)
        requires
            self.wf(),
        ensures
            blamed(self.component()) is None,
    {
    }

    /// What the binding of the game contract in `context` comes to: the
    /// instance with its exports where they were resolved, and otherwise
    /// the `BindError` as it came.
    fn bound_in(
        context: WebAssemblyContext,
        component: Instance,
        bound: Result<GameApi, BindError>,
    ) -> (loaded: Result<WebAssemblyInstance, LoadFailure>)
        ensures
            match bound {
                Ok(api) => loaded matches Ok(instance) && instance.context == context
                    && instance.component == component && instance.bindings == api,
                Err(error) => loaded matches Err(LoadFailure::Bind(e)) && e == error,
            },
    {
        match bound {
            Ok(bindings) => Ok(WebAssemblyInstance { component, bindings, context }),
            Err(error) => Err(LoadFailure::Bind(error)),
        }
    }

    /// Compiles `artifact`, instantiates it in `context` and resolves the
    /// game contract in it. The instance lives in `context` from then on.
    ///
    /// An artifact that cannot be compiled or linked is a `LoadError`; one
    /// that does not export the contract is a `BindError`. The guest's
    /// constructor is not run, so nothing here is a `ConstructError`.
    pub fn load(context: WebAssemblyContext, artifact: &[u8]) -> (loaded: Result<
        WebAssemblyInstance,
        LoadFailure,
    >)
        requires
            context.wf(),
        ensures
            loaded matches Ok(instance) ==> instance.wf() && instance.environment() == context@,
            loaded matches Err(failure) ==> !(failure is Construct),
            loaded matches Err(LoadFailure::Bind(e)) ==> contract_name(e.export@),
    {
        let mut context = context;
        let component = match load_stage(compile(&context.engine, artifact)) {
            Ok(component) => component,
            Err(failure) => {
                return Err(failure);
            },
        };
        let mut linker = new_linker(&context.engine);
        match load_stage(add_system_interface(&mut linker)) {
            Ok(_) => {},
            Err(failure) => {
                return Err(failure);
            },
        }
        let instance = match load_stage(instantiate(&linker, &mut context.store, &component)) {
            Ok(instance) => instance,
            Err(failure) => {
                return Err(failure);
            },
        };
        let bound = GameApi::bind(&instance, &mut context.store);
        WebAssemblyInstance::bound_in(context, instance, bound)
    }

    /// What running the guest's constructor comes to: the game instance
    /// around the resource it returned, in this environment, and otherwise
    /// a `ConstructError` with the text of the runtime's error.
    pub fn house(self, constructed: Result<ResourceAny, anyhow::Error>) -> (created: Result<
        GameInstance,
        ConstructError,
    >)
        ensures
            match constructed {
                Ok(resource) => created matches Ok(game) && game@ == (Resident {
                    resource,
                    environment: self.environment(),
                }) && (self.wf() && resource_home(resource) == self.environment().store
                    ==> game.wf()),
                Err(error) => created matches Err(e) && e.message@ == text_of(error),
            },
    {
        match constructed {
            Ok(instance) => Ok(
                GameInstance { bindings: self.bindings, instance, context: self.context },
            ),
            Err(error) => Err(ConstructError { message: describe(&error) }),
        }
    }

    /// Runs the guest's constructor. The environment goes with the instance
    /// it yields; where the constructor fails, the environment is dropped.
    pub fn create_game_instance(self) -> (created: Result<GameInstance, ConstructError>)
        requires
            self.wf(),
        ensures
            created matches Ok(game) ==> game.wf() && game@.environment == self.environment(),
    {
        let mut assembly = self;
        let constructed = call_constructor(
            &assembly.bindings.constructor,
            &mut assembly.context.store,
        );
        assembly.house(constructed)
    }
}

/// A constructed guest object together with the environment it lives in.
pub struct GameInstance {
    bindings: GameApi,
    instance: ResourceAny,
    context: WebAssemblyContext,
}

impl View for GameInstance {
    type V = Resident;

    closed spec fn view(&self) -> Resident {
        Resident { resource: self.instance, environment: self.context@ }
    }
}

/// What a frame comes to once the guest has returned: the items of the list
/// it returned in their order, or an error that names the per-frame export
/// where what it returned is no list.
pub fn commands_of(returned: Option<Vec<Val>>) -> (frame: Result<Vec<Val>, FrameError>)
    ensures
        match returned {
            Some(commands) => frame == Ok::<Vec<Val>, FrameError>(commands),
            None => frame matches Err(e) && e.message@ == RUN_FRAME@,
        },
{
    match returned {
        Some(commands) => Ok(commands),
        None => Err(FrameError { message: RUN_FRAME.to_owned() }),
    }
}

/// What a call of the per-frame export comes to: the items of the list the
/// guest returned, in their order; an error that names the export where
/// the guest returned no list; and a `FrameError` with the text of the
/// runtime's error where the call failed.
pub fn frame_of(returned: Result<Val, anyhow::Error>) -> (frame: Result<Vec<Val>, FrameError>)
    ensures
        match returned {
            Ok(value) => match items_of(value) {
                Some(items) => frame matches Ok(commands) && commands@ == items,
                None => frame matches Err(e) && e.message@ == RUN_FRAME@,
            },
            Err(error) => frame matches Err(e) && e.message@ == text_of(error),
        },
{
    match returned {
        Ok(value) => commands_of(list_items(value)),
        Err(error) => Err(FrameError { message: describe(&error) }),
    }
}

/// What a call of `save` comes to: the guest's bytes as they came, and
/// otherwise a `SaveError` with the text of the runtime's error.
pub fn saved_of(returned: Result<Vec<u8>, anyhow::Error>) -> (saved: Result<Vec<u8>, SaveError>)
    ensures
        match returned {
            Ok(blob) => saved == Ok::<Vec<u8>, SaveError>(blob),
            Err(error) => saved matches Err(e) && e.message@ == text_of(error),
        },
{
    match returned {
        Ok(blob) => Ok(blob),
        Err(error) => Err(SaveError { message: describe(&error) }),
    }
}

/// What a call of `restore` comes to: success where the guest accepted the
/// blob, and otherwise a `RestoreError` with the text of the runtime's
/// error.
pub fn restored_of(returned: Result<(), anyhow::Error>) -> (restored: Result<(), RestoreError>)
    ensures
        match returned {
            Ok(_) => restored is Ok,
            Err(error) => restored matches Err(e) && e.message@ == text_of(error),
        },
{
    match returned {
        Ok(_) => Ok(()),
        Err(error) => Err(RestoreError { message: describe(&error) }),
    }
}

/// What the host paints for a frame: the guest's commands in paint order
/// where the frame ran, nothing where it failed.
pub open spec fn painted(frame: Result<Seq<Val>, FrameError>) -> Seq<Val> {
    match frame {
        Ok(commands) => commands,
        Err(_) => Seq::empty(),
    }
}

/// Turns the outcome of a frame into what is painted and what is reported:
/// a failed frame paints nothing and reports its error.
pub fn settle_frame(frame: Result<Vec<Val>, FrameError>) -> (settled: (
    Vec<Val>,
    Result<(), FrameError>,
))
    ensures
        settled.0@ == painted(
            match frame {
                Ok(commands) => Ok(commands@),
                Err(e) => Err(e),
            },
        ),
        settled.1 == match frame {
            Ok(_) => Ok::<(), FrameError>(()),
            Err(e) => Err(e),
        },
{
    match frame {
        Ok(commands) => (commands, Ok(())),
        Err(error) => (Vec::new(), Err(error)),
    }
}

/// Something that can be asked for what to paint in a frame.
pub trait RunnableGameInstance {
    /// What tells one instance from another.
    type Identity;

    /// What stays the same of the instance from frame to frame.
    spec fn identity(&self) -> Self::Identity;

    /// Whether the instance can be called.
    spec fn valid(&self) -> bool;

    /// Runs one frame with the given inputs and returns the render commands
    /// to paint, in paint order. The instance is the same one afterwards.
    fn run_frame(&mut self, mouse: Val, key: Val) -> (commands: Vec<Val>)
        requires
            old(self).valid(),
        ensures
            final(self).valid(),
            final(self).identity() == old(self).identity(),
    ;
}

impl RunnableGameInstance for GameInstance {
    type Identity = Resident;

    /// The guest object and the environment it lives in.
    open spec fn identity(&self) -> Resident {
        self@
    }

    /// The guest object and its exports are at home in its store.
    open spec fn valid(&self) -> bool {
        self.wf()
    }

    /// Runs one frame on the guest; a frame that fails paints nothing.
    fn run_frame(&mut self, mouse: Val, key: Val) -> (commands: Vec<Val>) {
        settle_frame(GameInstance::run_frame(self, mouse, key)).0
    }
}

impl GameInstance {
    /// The environment is sound, and the exports and the guest object are
    /// at home in its store.
    pub closed spec fn wf(&self) -> bool {
        &&& self.context.wf()
        &&& self.bindings.wf(store_id(self.context.store))
        &&& resource_home(self.instance) == store_id(self.context.store)
    }

    /// Brings up one generation from `artifact`: a fresh environment, the
    /// component instantiated in it, and the instance its constructor
    /// yields.
    pub fn construct(artifact: &[u8], reservation: Reservation) -> (constructed: Result<
        GameInstance,
        LoadFailure,
    >)
        ensures
            constructed matches Ok(game) ==> game.wf() && game@.environment.reservation
                == reservation,
            constructed matches Err(LoadFailure::Bind(e)) ==> contract_name(e.export@),
    {
        let context = match LoadFailure::loading(WebAssemblyContext::load_reserving(reservation)) {
            Ok(context) => context,
            Err(failure) => {
                return Err(failure);
            },
        };
        let assembly = match WebAssemblyInstance::load(context, artifact) {
            Ok(assembly) => assembly,
            Err(failure) => {
                return Err(failure);
            },
        };
        LoadFailure::constructing(assembly.create_game_instance())
    }

    /// How the environment of this instance reserves guest memory.
    pub fn reservation(&self) -> (reservation: Reservation)
        ensures
            reservation == self@.environment.reservation,
    {
        self.context.reservation
    }

    /// Runs one frame with the given inputs and returns the guest's render
    /// commands in paint order. Whatever the guest does, the call goes to
    /// this guest object and leaves it in its store and environment.
    pub fn run_frame(&mut self, mouse: Val, key: Val) -> (frame: Result<Vec<Val>, FrameError>)
        requires
            old(self).wf(),
        ensures
            final(self).wf(),
            final(self)@ == old(self)@,
    {
        frame_of(
            call_run_frame(
                &self.bindings.run_frame,
                &mut self.context.store,
                self.instance,
                mouse,
                key,
            ),
        )
    }

    /// Asks the guest for its serialized state. Whatever the guest does,
    /// the call goes to this guest object and leaves it in its store and
    /// environment.
    pub fn save(&mut self) -> (saved: Result<Vec<u8>, SaveError>)
        requires
            old(self).wf(),
        ensures
            final(self).wf(),
            final(self)@ == old(self)@,
    {
        saved_of(call_save(&self.bindings.save, &mut self.context.store, self.instance))
    }

    /// Hands `data` to the guest to read its state from. Whatever the guest
    /// does, the call goes to this guest object and leaves it in its store
    /// and environment.
    pub fn load(&mut self, data: Vec<u8>) -> (restored: Result<(), RestoreError>)
        requires
            old(self).wf(),
        ensures
            final(self).wf(),
            final(self)@ == old(self)@,
    {
        restored_of(
            call_restore(&self.bindings.restore, &mut self.context.store, self.instance, data),
        )
    }
}

} // verus!
