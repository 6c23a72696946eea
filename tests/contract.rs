use hello_tiburona::contract::{check_name_len, authorize, MAX_NAME_LEN, TTL_EXTEND_TO};
use hello_tiburona::{Address, DataKey, Env, Error, HelloContract, Value};

fn addr(s: &str) -> Address {
    Address::new(s.to_string())
}

fn name(s: &str) -> String {
    s.to_string()
}

#[test]
fn test_initialize() {
    let mut env = Env::new();
    let admin = addr("GADMIN");
    HelloContract::initialize(&mut env, admin).unwrap();
    assert_eq!(HelloContract::get_contador(&env), 0);
}

#[test]
fn test_no_reinicializar() {
    let mut env = Env::new();
    let admin = addr("GADMIN");
    assert_eq!(HelloContract::initialize(&mut env, admin.clone()), Ok(()));
    assert_eq!(HelloContract::initialize(&mut env, admin), Err(Error::YaInicializado));
}

#[test]
fn test_hello_exitoso() {
    let mut env = Env::new();
    let admin = addr("GADMIN");
    let usuario = addr("GUSUARIO");
    HelloContract::initialize(&mut env, admin).unwrap();
    let nombre = name("Ana");
    let resultado = HelloContract::hello(&mut env, usuario.clone(), nombre.clone());
    assert_eq!(resultado, Ok(name("Hola")));
    assert_eq!(HelloContract::get_contador(&env), 1);
    assert_eq!(HelloContract::get_ultimo_saludo(&env, &usuario), Some(nombre));
}

#[test]
fn test_nombre_vacio() {
    let mut env = Env::new();
    let admin = addr("GADMIN");
    let usuario = addr("GUSUARIO");
    HelloContract::initialize(&mut env, admin).unwrap();
    let vacio = name("");
    assert_eq!(HelloContract::hello(&mut env, usuario.clone(), vacio), Err(Error::NombreVacio));
    assert_eq!(HelloContract::get_contador(&env), 0);
    assert_eq!(HelloContract::get_ultimo_saludo(&env, &usuario), None);
}

#[test]
fn test_reset_solo_admin() {
    let mut env = Env::new();
    let admin = addr("GADMIN");
    let _otro = addr("GOTRO");
    let usuario = addr("GUSUARIO");
    HelloContract::initialize(&mut env, admin.clone()).unwrap();
    HelloContract::hello(&mut env, usuario, name("Test")).unwrap();
    assert_eq!(HelloContract::get_contador(&env), 1);
    HelloContract::reset_contador(&mut env, &admin).unwrap();
    assert_eq!(HelloContract::get_contador(&env), 0);
}

#[test]
fn test_reset_no_autorizado() {
    let mut env = Env::new();
    let admin = addr("GADMIN");
    let otro = addr("GOTRO");
    HelloContract::initialize(&mut env, admin).unwrap();
    assert_eq!(HelloContract::reset_contador(&mut env, &otro), Err(Error::NoAutorizado));
}

#[test]
fn fresh_counter_is_zero_before_and_after_initialize() {
    let mut env = Env::new();
    assert_eq!(HelloContract::get_contador(&env), 0);
    assert!(!env.instance_has(&DataKey::Admin));
    HelloContract::initialize(&mut env, addr("GADMIN")).unwrap();
    assert_eq!(HelloContract::get_contador(&env), 0);
    assert!(env.instance_has(&DataKey::Admin));
}

#[test]
fn second_initialize_keeps_first_admin() {
    let mut env = Env::new();
    let first = addr("GFIRST");
    let second = addr("GSECOND");
    HelloContract::initialize(&mut env, first.clone()).unwrap();
    HelloContract::hello(&mut env, addr("GU"), name("Eva")).unwrap();
    assert_eq!(HelloContract::initialize(&mut env, second.clone()), Err(Error::YaInicializado));
    assert_eq!(HelloContract::get_contador(&env), 1);
    assert_eq!(HelloContract::reset_contador(&mut env, &second), Err(Error::NoAutorizado));
    assert_eq!(HelloContract::reset_contador(&mut env, &first), Ok(()));
}

#[test]
fn greeting_counts_and_records_per_caller() {
    let mut env = Env::new();
    HelloContract::initialize(&mut env, addr("GADMIN")).unwrap();
    let ana = addr("GANA");
    let luis = addr("GLUIS");
    HelloContract::hello(&mut env, ana.clone(), name("Ana")).unwrap();
    HelloContract::hello(&mut env, luis.clone(), name("Luis")).unwrap();
    HelloContract::hello(&mut env, ana.clone(), name("Anita")).unwrap();
    assert_eq!(HelloContract::get_contador(&env), 3);
    assert_eq!(HelloContract::get_ultimo_saludo(&env, &ana), Some(name("Anita")));
    assert_eq!(HelloContract::get_ultimo_saludo(&env, &luis), Some(name("Luis")));
    assert_eq!(HelloContract::get_ultimo_saludo(&env, &addr("GNADIE")), None);
}

#[test]
fn name_of_exactly_the_limit_is_accepted() {
    let mut env = Env::new();
    HelloContract::initialize(&mut env, addr("GADMIN")).unwrap();
    let n = "a".repeat(32);
    let u = addr("GU");
    assert_eq!(HelloContract::hello(&mut env, u.clone(), n.clone()), Ok(name("Hola")));
    assert_eq!(HelloContract::get_ultimo_saludo(&env, &u), Some(n));
    assert_eq!(HelloContract::get_contador(&env), 1);
}

#[test]
fn name_one_over_the_limit_is_refused() {
    let mut env = Env::new();
    HelloContract::initialize(&mut env, addr("GADMIN")).unwrap();
    let u = addr("GU");
    HelloContract::hello(&mut env, u.clone(), name("Ana")).unwrap();
    let ttl_before = env.instance_ttl();
    let n = "a".repeat(33);
    assert_eq!(HelloContract::hello(&mut env, u.clone(), n), Err(Error::NombreMuyLargo));
    assert_eq!(HelloContract::get_contador(&env), 1);
    assert_eq!(HelloContract::get_ultimo_saludo(&env, &u), Some(name("Ana")));
    assert_eq!(env.instance_ttl(), ttl_before);
}

#[test]
fn name_length_counts_bytes() {
    let mut env = Env::new();
    HelloContract::initialize(&mut env, addr("GADMIN")).unwrap();
    let u = addr("GU");
    // Each 'ñ' takes two bytes.
    assert_eq!(HelloContract::hello(&mut env, u.clone(), "ñ".repeat(16)), Ok(name("Hola")));
    assert_eq!(
        HelloContract::hello(&mut env, u.clone(), "ñ".repeat(17)),
        Err(Error::NombreMuyLargo)
    );
    assert_eq!(HelloContract::get_ultimo_saludo(&env, &u), Some("ñ".repeat(16)));
}

#[test]
fn admin_reset_after_greetings_keeps_records() {
    let mut env = Env::new();
    let admin = addr("GADMIN");
    HelloContract::initialize(&mut env, admin.clone()).unwrap();
    let ana = addr("GANA");
    let luis = addr("GLUIS");
    HelloContract::hello(&mut env, ana.clone(), name("Ana")).unwrap();
    HelloContract::hello(&mut env, luis.clone(), name("Luis")).unwrap();
    assert_eq!(HelloContract::get_contador(&env), 2);
    assert_eq!(HelloContract::reset_contador(&mut env, &admin), Ok(()));
    assert_eq!(HelloContract::get_contador(&env), 0);
    assert_eq!(HelloContract::get_ultimo_saludo(&env, &ana), Some(name("Ana")));
    assert_eq!(HelloContract::get_ultimo_saludo(&env, &luis), Some(name("Luis")));
    HelloContract::hello(&mut env, ana, name("Otra")).unwrap();
    assert_eq!(HelloContract::get_contador(&env), 1);
}

#[test]
fn non_admin_reset_leaves_counter() {
    let mut env = Env::new();
    HelloContract::initialize(&mut env, addr("GADMIN")).unwrap();
    HelloContract::hello(&mut env, addr("GU"), name("Ana")).unwrap();
    assert_eq!(HelloContract::reset_contador(&mut env, &addr("GU")), Err(Error::NoAutorizado));
    assert_eq!(HelloContract::get_contador(&env), 1);
}

#[test]
fn reset_before_initialize_is_refused() {
    let mut env = Env::new();
    assert_eq!(HelloContract::reset_contador(&mut env, &addr("GADMIN")), Err(Error::NoInicializado));
    assert_eq!(HelloContract::get_contador(&env), 0);
}

#[test]
fn greeting_before_initialize_goes_through() {
    let mut env = Env::new();
    let u = addr("GU");
    assert_eq!(HelloContract::hello(&mut env, u.clone(), name("Ana")), Ok(name("Hola")));
    assert_eq!(HelloContract::get_contador(&env), 1);
    assert_eq!(HelloContract::get_ultimo_saludo(&env, &u), Some(name("Ana")));
    assert!(!env.instance_has(&DataKey::Admin));
    assert_eq!(HelloContract::reset_contador(&mut env, &u), Err(Error::NoInicializado));
    // Initialization afterwards still succeeds and starts the counter over.
    assert_eq!(HelloContract::initialize(&mut env, addr("GADMIN")), Ok(()));
    assert_eq!(HelloContract::get_contador(&env), 0);
}

#[test]
fn repeated_reads_agree() {
    let mut env = Env::new();
    HelloContract::initialize(&mut env, addr("GADMIN")).unwrap();
    let u = addr("GU");
    HelloContract::hello(&mut env, u.clone(), name("Ana")).unwrap();
    assert_eq!(HelloContract::get_contador(&env), HelloContract::get_contador(&env));
    assert_eq!(
        HelloContract::get_ultimo_saludo(&env, &u),
        HelloContract::get_ultimo_saludo(&env, &u)
    );
    assert_eq!(HelloContract::get_contador(&env), 1);
}

#[test]
fn lifetimes_are_extended() {
    let mut env = Env::new();
    assert_eq!(env.instance_ttl(), 0);
    HelloContract::initialize(&mut env, addr("GADMIN")).unwrap();
    assert_eq!(env.instance_ttl(), TTL_EXTEND_TO);
    let u = addr("GU");
    let k = DataKey::UltimoSaludo(u.clone());
    assert_eq!(env.persistent_ttl(&k), None);
    HelloContract::hello(&mut env, u, name("Ana")).unwrap();
    assert_eq!(env.persistent_ttl(&k), Some(TTL_EXTEND_TO));
    assert_eq!(env.instance_ttl(), TTL_EXTEND_TO);
}

#[test]
fn store_keeps_lifetime_on_overwrite_and_extends_only_below_threshold() {
    let mut env = Env::new();
    let k = DataKey::UltimoSaludo(addr("GU"));
    env.persistent_set(k.clone(), Value::Text(name("a")));
    assert_eq!(env.persistent_ttl(&k), Some(0));
    env.extend_persistent_ttl(&k, 10, 50);
    assert_eq!(env.persistent_ttl(&k), Some(50));
    env.extend_persistent_ttl(&k, 10, 20);
    assert_eq!(env.persistent_ttl(&k), Some(50));
    env.persistent_set(k.clone(), Value::Text(name("b")));
    assert_eq!(env.persistent_ttl(&k), Some(50));
    assert!(matches!(env.persistent_get(&k), Some(Value::Text(t)) if t == "b"));
    let absent = DataKey::UltimoSaludo(addr("GX"));
    env.extend_persistent_ttl(&absent, 10, 50);
    assert_eq!(env.persistent_ttl(&absent), None);
    env.extend_instance_ttl(100, 300);
    assert_eq!(env.instance_ttl(), 300);
    env.extend_instance_ttl(100, 500);
    assert_eq!(env.instance_ttl(), 300);
}

#[test]
fn store_keys_do_not_collide() {
    let mut env = Env::new();
    env.instance_set(DataKey::ContadorSaludos, Value::Count(7));
    assert!(!env.instance_has(&DataKey::Admin));
    assert!(matches!(env.instance_get(&DataKey::ContadorSaludos), Some(Value::Count(7))));
    assert_eq!(HelloContract::get_contador(&env), 7);
    env.persistent_set(DataKey::UltimoSaludo(addr("GA")), Value::Text(name("x")));
    assert!(env.persistent_get(&DataKey::UltimoSaludo(addr("GB"))).is_none());
    assert!(env.persistent_get(&DataKey::ContadorSaludos).is_none());
}

#[test]
fn name_validation_rule() {
    assert_eq!(check_name_len(0), Err(Error::NombreVacio));
    assert_eq!(check_name_len(1), Ok(()));
    assert_eq!(check_name_len(MAX_NAME_LEN), Ok(()));
    assert_eq!(check_name_len(MAX_NAME_LEN + 1), Err(Error::NombreMuyLargo));
}

#[test]
fn authorization_rule() {
    let a = addr("GADMIN");
    assert_eq!(authorize(None, &a), Err(Error::NoInicializado));
    assert_eq!(authorize(Some(&a), &addr("GADMIN")), Ok(()));
    assert_eq!(authorize(Some(&a), &addr("GOTRO")), Err(Error::NoAutorizado));
}
