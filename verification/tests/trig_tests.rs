use thepalace::iptscrae::{Value, Vm};

fn builtin(name: &str, d: i32) -> i32 {
    let mut vm = Vm::new();
    vm.push(Value::Integer(d));
    vm.execute_builtin(name).unwrap();
    match vm.pop("result").unwrap() {
        Value::Integer(n) => n,
        _ => panic!("not an integer"),
    }
}

fn float_trig(name: &str, d: i32) -> i32 {
    let r = (d as f64).to_radians();
    let v = match name {
        "SINE" => r.sin(),
        "COSINE" => r.cos(),
        _ => r.tan(),
    };
    (v * 1000.0) as i32
}

#[test]
fn trig_tables_match_float_within_one_turn() {
    for name in ["SINE", "COSINE", "TANGENT"] {
        for d in -359..=359 {
            assert_eq!(builtin(name, d), float_trig(name, d), "{} of {}", name, d);
        }
    }
}
