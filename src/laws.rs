use vstd::prelude::*;
use crate::contract::{
    ack, admin_of, counter, hello_spec, initialize_spec, is_initialized, last_greeting, name_len,
    reset_spec, Error, MAX_NAME_LEN,
};
use crate::store::{fresh, EnvView, KeyView};

verus! {

/// A contract that nothing has touched counts zero greetings, and still
/// does right after its initialization, which succeeds.
pub proof fn fresh_counter_is_zero(admin: Seq<char>)
    ensures
        counter(fresh()) == 0,
        initialize_spec(fresh(), admin).1 == Ok::<(), Error>(()),
        counter(initialize_spec(fresh(), admin).0) == 0,
        admin_of(initialize_spec(fresh(), admin).0) == Some(admin),
{
}

/// A second initialization is refused and leaves the state of the first
/// as it was.
pub proof fn initialize_twice_refused(s: EnvView, first: Seq<char>, second: Seq<char>)
    ensures
        initialize_spec(initialize_spec(s, first).0, second) == (
            initialize_spec(s, first).0,
            Err::<(), Error>(Error::YaInicializado),
        ),
{
}

/// A greeting with a valid name answers with the acknowledgment, counts
/// one more greeting and records the name for its caller alone.
pub proof fn valid_greeting_counts_and_records(s: EnvView, who: Seq<char>, name: Seq<char>)
    requires
        1 <= name_len(name) <= MAX_NAME_LEN,
        counter(s) < u32::MAX,
    ensures
        hello_spec(s, who, name).1 == Ok::<Seq<char>, Error>(ack()),
        counter(hello_spec(s, who, name).0) == counter(s) + 1,
        last_greeting(hello_spec(s, who, name).0, who) == Some(name),
        forall|other: Seq<char>|
            other != who ==> last_greeting(hello_spec(s, who, name).0, other) == last_greeting(
                s,
                other,
            ),
        admin_of(hello_spec(s, who, name).0) == admin_of(s),
{
    let t = hello_spec(s, who, name).0;
    assert forall|other: Seq<char>| other != who implies last_greeting(t, other) == last_greeting(
        s,
        other,
    ) by {
        assert(KeyView::UltimoSaludo(other) != KeyView::UltimoSaludo(who));
    }
}

/// A greeting with an empty name is refused and changes nothing.
pub proof fn empty_name_refused(s: EnvView, who: Seq<char>)
    ensures
        hello_spec(s, who, Seq::empty()) == (s, Err::<Seq<char>, Error>(Error::NombreVacio)),
{
    assert(name_len(Seq::empty()) == 0) by {
        reveal_with_fuel(vstd::utf8::encode_utf8, 2);
    }
}

/// A greeting with a name longer than the limit is refused and changes
/// nothing.
pub proof fn long_name_refused(s: EnvView, who: Seq<char>, name: Seq<char>)
    requires
        name_len(name) > MAX_NAME_LEN,
    ensures
        hello_spec(s, who, name) == (s, Err::<Seq<char>, Error>(Error::NombreMuyLargo)),
{
}

/// A reset by the admin brings the counter back to zero and leaves every
/// recorded greeting as it was.
pub proof fn admin_reset_keeps_greetings(s: EnvView, admin: Seq<char>)
    requires
        admin_of(s) == Some(admin),
    ensures
        reset_spec(s, admin).1 == Ok::<(), Error>(()),
        counter(reset_spec(s, admin).0) == 0,
        forall|who: Seq<char>| last_greeting(reset_spec(s, admin).0, who) == last_greeting(s, who),
        admin_of(reset_spec(s, admin).0) == Some(admin),
{
}

/// A reset by anyone but the admin is refused and changes nothing.
pub proof fn other_reset_refused(s: EnvView, admin: Seq<char>, caller: Seq<char>)
    requires
        admin_of(s) == Some(admin),
        caller != admin,
    ensures
        reset_spec(s, caller) == (s, Err::<(), Error>(Error::NoAutorizado)),
{
}

/// Before initialization a reset is refused, while a valid greeting goes
/// through, counts, and leaves the contract without an admin.
pub proof fn before_initialize(s: EnvView, caller: Seq<char>, who: Seq<char>, name: Seq<char>)
    requires
        !is_initialized(s),
        1 <= name_len(name) <= MAX_NAME_LEN,
        counter(s) < u32::MAX,
    ensures
        reset_spec(s, caller) == (s, Err::<(), Error>(Error::NoInicializado)),
        hello_spec(s, who, name).1 == Ok::<Seq<char>, Error>(ack()),
        counter(hello_spec(s, who, name).0) == counter(s) + 1,
        !is_initialized(hello_spec(s, who, name).0),
{
}

} // verus!
