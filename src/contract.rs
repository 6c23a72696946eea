use vstd::prelude::*;
use vstd::utf8::encode_utf8;
use crate::address::Address;
use crate::store::{
    bumped, extended, put, DataKey, Env, EnvView, KeyView, Value, ValueView,
};

verus! {

/// Why an operation was refused. A refused operation changes nothing.
#[derive(Clone, Copy, Debug, PartialEq, Eq, Structural)]
pub enum Error {
    /// A greeting with an empty name.
    NombreVacio,
    /// A greeting with a name longer than `MAX_NAME_LEN` bytes.
    NombreMuyLargo,
    /// A reset asked for by someone other than the admin.
    NoAutorizado,
    /// A reset before the contract was initialized.
    NoInicializado,
    /// A second initialization.
    YaInicializado,
}

/// The longest name a greeting accepts, in bytes.
pub const MAX_NAME_LEN: usize = 32;

/// The lifetime below which an operation extends what it touched.
pub const TTL_THRESHOLD: u32 = 100;

/// The lifetime that such an extension grants.
pub const TTL_EXTEND_TO: u32 = 100;

/// The length of a name, in bytes of its UTF-8 encoding.
pub open spec fn name_len(name: Seq<char>) -> nat {
    encode_utf8(name).len()
}

/// The validation of a name of `len` bytes.
pub open spec fn name_check(len: nat) -> Result<(), Error> {
    if len == 0 {
        Err(Error::NombreVacio)
    } else if len > MAX_NAME_LEN {
        Err(Error::NombreMuyLargo)
    } else {
        Ok(())
    }
}

/// The access-control gate of a reset: `admin` is the stored admin, if any.
pub open spec fn auth_check(admin: Option<Seq<char>>, caller: Seq<char>) -> Result<(), Error> {
    match admin {
        None => Err(Error::NoInicializado),
        Some(a) => if a == caller {
            Ok(())
        } else {
            Err(Error::NoAutorizado)
        },
    }
}

/// The token a successful greeting answers with.
pub open spec fn ack() -> Seq<char> {
    seq!['H', 'o', 'l', 'a']
}

pub open spec fn is_initialized(s: EnvView) -> bool {
    s.instance.contains_key(KeyView::Admin)
}

/// The stored admin, if any.
pub open spec fn admin_of(s: EnvView) -> Option<Seq<char>> {
    if s.instance.contains_key(KeyView::Admin) && s.instance[KeyView::Admin].value is Addr {
        Some(s.instance[KeyView::Admin].value->Addr_0)
    } else {
        None
    }
}

/// The greeting counter; an absent counter reads as zero.
pub open spec fn counter(s: EnvView) -> u32 {
    if s.instance.contains_key(KeyView::ContadorSaludos)
        && s.instance[KeyView::ContadorSaludos].value is Count {
        s.instance[KeyView::ContadorSaludos].value->Count_0
    } else {
        0
    }
}

/// The last name that `who` greeted with, if `who` ever greeted.
pub open spec fn last_greeting(s: EnvView, who: Seq<char>) -> Option<Seq<char>> {
    let k = KeyView::UltimoSaludo(who);
    if s.persistent.contains_key(k) && s.persistent[k].value is Text {
        Some(s.persistent[k].value->Text_0)
    } else {
        None
    }
}

/// What `initialize` does to the state, and what it returns.
pub open spec fn initialize_spec(s: EnvView, admin: Seq<char>) -> (EnvView, Result<(), Error>) {
    if is_initialized(s) {
        (s, Err(Error::YaInicializado))
    } else {
        (
            EnvView {
                instance: put(
                    put(s.instance, KeyView::Admin, ValueView::Addr(admin)),
                    KeyView::ContadorSaludos,
                    ValueView::Count(0),
                ),
                instance_ttl: extended(s.instance_ttl, TTL_THRESHOLD, TTL_EXTEND_TO),
                persistent: s.persistent,
            },
            Ok(()),
        )
    }
}

/// What `hello` does to the state, and what it returns.
pub open spec fn hello_spec(s: EnvView, who: Seq<char>, name: Seq<char>) -> (
    EnvView,
    Result<Seq<char>, Error>,
) {
    match name_check(name_len(name)) {
        Err(e) => (s, Err(e)),
        Ok(_) => {
            let k = KeyView::UltimoSaludo(who);
            (
                EnvView {
                    instance: put(
                        s.instance,
                        KeyView::ContadorSaludos,
                        ValueView::Count((counter(s) + 1) as u32),
                    ),
                    instance_ttl: extended(s.instance_ttl, TTL_THRESHOLD, TTL_EXTEND_TO),
                    persistent: bumped(
                        put(s.persistent, k, ValueView::Text(name)),
                        k,
                        TTL_THRESHOLD,
                        TTL_EXTEND_TO,
                    ),
                },
                Ok(ack()),
            )
        },
    }
}

/// What `reset_contador` does to the state, and what it returns.
pub open spec fn reset_spec(s: EnvView, caller: Seq<char>) -> (EnvView, Result<(), Error>) {
    match auth_check(admin_of(s), caller) {
        Err(e) => (s, Err(e)),
        Ok(_) => (
            EnvView {
                instance: put(s.instance, KeyView::ContadorSaludos, ValueView::Count(0)),
                ..s
            },
            Ok(()),
        ),
    }
}

/// A textual result, seen as characters.
pub open spec fn result_view(r: Result<String, Error>) -> Result<Seq<char>, Error> {
    match r {
        Ok(t) => Ok(t@),
        Err(e) => Err(e),
    }
}

/// An optional text, seen as characters.
pub open spec fn option_view(o: Option<String>) -> Option<Seq<char>> {
    match o {
        Some(t) => Some(t@),
        None => None,
    }
}

/// Validates a name of `len` bytes.
pub fn check_name_len(len: usize) -> (r: Result<(), Error>)
    ensures
        r == name_check(len as nat),
{
    if len == 0 {
        Err(Error::NombreVacio)
    } else if len > MAX_NAME_LEN {
        Err(Error::NombreMuyLargo)
    } else {
        Ok(())
    }
}

/// Decides whether `caller` may reset the counter, given the stored admin.
pub fn authorize(admin: Option<&Address>, caller: &Address) -> (r: Result<(), Error>)
    ensures
        r == auth_check(
            match admin {
                Some(a) => Some(a@),
                None => None,
            },
            caller@,
        ),
{
    match admin {
        None => Err(Error::NoInicializado),
        Some(a) => if a.same(caller) {
            Ok(())
        } else {
            Err(Error::NoAutorizado)
        },
    }
}

/// The contract: its operations act on the state they are handed.
pub struct HelloContract;

impl HelloContract {
    /// Records `admin` as the contract's admin and starts the counter at
    /// zero; refused once the contract has an admin.
    pub fn initialize(env: &mut Env, admin: Address) -> (r: Result<(), Error>)
        ensures
            (final(env)@, r) == initialize_spec(old(env)@, admin@),
    {
        if env.instance_has(&DataKey::Admin) {
            return Err(Error::YaInicializado);
        }
        env.instance_set(DataKey::Admin, Value::Addr(admin));
        env.instance_set(DataKey::ContadorSaludos, Value::Count(0));
        env.extend_instance_ttl(TTL_THRESHOLD, TTL_EXTEND_TO);
        Ok(())
    }

    /// Greets on behalf of `usuario`: counts the greeting and records
    /// `nombre` as their last one. Anyone may greet.
    pub fn hello(env: &mut Env, usuario: Address, nombre: String) -> (r: Result<String, Error>)
        requires
            counter(old(env)@) < u32::MAX,
        ensures
            (final(env)@, result_view(r)) == hello_spec(old(env)@, usuario@, nombre@),
    {
        let len = nombre.as_str().as_bytes().len();
        if let Err(e) = check_name_len(len) {
            return Err(e);
        }
        let contador = Self::get_contador(env);
        env.instance_set(DataKey::ContadorSaludos, Value::Count(contador + 1));
        let k = DataKey::UltimoSaludo(usuario);
        env.persistent_set(k.duplicate(), Value::Text(nombre));
        env.extend_persistent_ttl(&k, TTL_THRESHOLD, TTL_EXTEND_TO);
        env.extend_instance_ttl(TTL_THRESHOLD, TTL_EXTEND_TO);
        let token = String::from_str("Hola");
        proof {
            reveal_strlit("Hola");
            assert(token@ =~= ack());
        }
        Ok(token)
    }

    /// The greeting counter; zero before initialization.
    pub fn get_contador(env: &Env) -> (r: u32)
        ensures
            r == counter(env@),
    {
        match env.instance_get(&DataKey::ContadorSaludos) {
            Some(Value::Count(n)) => n,
            _ => 0,
        }
    }

    /// The last name that `usuario` greeted with, if any.
    pub fn get_ultimo_saludo(env: &Env, usuario: &Address) -> (r: Option<String>)
        ensures
            option_view(r) == last_greeting(env@, usuario@),
    {
        match env.persistent_get(&DataKey::UltimoSaludo(usuario.duplicate())) {
            Some(Value::Text(t)) => Some(t),
            _ => None,
        }
    }

    /// Sets the counter back to zero; only the admin may.
    pub fn reset_contador(env: &mut Env, caller: &Address) -> (r: Result<(), Error>)
        ensures
            (final(env)@, r) == reset_spec(old(env)@, caller@),
    {
        let admin = match env.instance_get(&DataKey::Admin) {
            Some(Value::Addr(a)) => Some(a),
            _ => None,
        };
        let gate = match &admin {
            Some(a) => authorize(Some(a), caller),
            None => authorize(None, caller),
        };
        if let Err(e) = gate {
            return Err(e);
        }
        env.instance_set(DataKey::ContadorSaludos, Value::Count(0));
        Ok(())
    }
}

} // verus!
