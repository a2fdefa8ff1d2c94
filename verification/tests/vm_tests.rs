use thepalace::iptscrae::{BinOp, EventType, ExecutionLimits, Lexer, Parser, ScriptActions, ScriptContext, SecurityLevel, Value, Vm, VmError};
use thepalace::AssetSpec;

fn test_builtin<F>(builtin: &str, setup: F) -> Vm
where
    F: FnOnce(&mut Vm),
{
    let mut vm = Vm::new();
    setup(&mut vm);
    vm.execute_builtin_with_context::<()>(builtin, None).unwrap();
    vm
}

#[test]
fn test_vm_push_pop() {
    let mut vm = Vm::new();
    vm.push(Value::Integer(42));
    vm.push(Value::String("test".to_string()));

    assert_eq!(vm.pop("test").unwrap(), Value::String("test".to_string()));
    assert_eq!(vm.pop("test").unwrap(), Value::Integer(42));
}
#[test]
fn test_vm_stack_underflow() {
    let mut vm = Vm::new();
    let result = vm.pop("test");
    assert!(matches!(result, Err(VmError::StackUnderflow { .. })));
}
#[test]
fn test_vm_arithmetic() {
    let mut vm = Vm::new();

    // 5 + 3
    vm.push(Value::Integer(5));
    vm.push(Value::Integer(3));
    vm.execute_binop(BinOp::Add).unwrap();
    assert_eq!(vm.pop("test").unwrap(), Value::Integer(8));

    // 10 - 4
    vm.push(Value::Integer(10));
    vm.push(Value::Integer(4));
    vm.execute_binop(BinOp::Sub).unwrap();
    assert_eq!(vm.pop("test").unwrap(), Value::Integer(6));

    // 6 * 7
    vm.push(Value::Integer(6));
    vm.push(Value::Integer(7));
    vm.execute_binop(BinOp::Mul).unwrap();
    assert_eq!(vm.pop("test").unwrap(), Value::Integer(42));

    // 15 / 3
    vm.push(Value::Integer(15));
    vm.push(Value::Integer(3));
    vm.execute_binop(BinOp::Div).unwrap();
    assert_eq!(vm.pop("test").unwrap(), Value::Integer(5));
}
#[test]
fn test_vm_division_by_zero() {
    let mut vm = Vm::new();
    vm.push(Value::Integer(10));
    vm.push(Value::Integer(0));
    let result = vm.execute_binop(BinOp::Div);
    assert!(matches!(result, Err(VmError::DivisionByZero)));
}
#[test]
fn test_vm_comparison() {
    let mut vm = Vm::new();

    // 5 < 10
    vm.push(Value::Integer(5));
    vm.push(Value::Integer(10));
    vm.execute_binop(BinOp::Less).unwrap();
    assert_eq!(vm.pop("test").unwrap(), Value::Integer(1));

    // 10 > 5
    vm.push(Value::Integer(10));
    vm.push(Value::Integer(5));
    vm.execute_binop(BinOp::Greater).unwrap();
    assert_eq!(vm.pop("test").unwrap(), Value::Integer(1));

    // 5 == 5
    vm.push(Value::Integer(5));
    vm.push(Value::Integer(5));
    vm.execute_binop(BinOp::Eq).unwrap();
    assert_eq!(vm.pop("test").unwrap(), Value::Integer(1));
}
#[test]
fn test_vm_string_concat() {
    let mut vm = Vm::new();
    vm.push(Value::String("Hello ".to_string()));
    vm.push(Value::String("World".to_string()));
    vm.execute_binop(BinOp::Concat).unwrap();
    assert_eq!(
        vm.pop("test").unwrap(),
        Value::String("Hello World".to_string())
    );
}
#[test]
fn test_vm_variables() {
    let mut vm = Vm::new();
    vm.set_variable("x".to_string(), Value::Integer(42));
    assert_eq!(vm.get_variable("x"), Some(&Value::Integer(42)));
    assert_eq!(vm.get_variable("y"), None);
}
#[test]
fn test_vm_stack_operations() {
    let mut vm = Vm::new();

    // Test DUP
    vm.push(Value::Integer(42));
    vm.execute_builtin_with_context::<()>("DUP", None).unwrap();
    assert_eq!(vm.stack().len(), 2);
    assert_eq!(vm.pop("test").unwrap(), Value::Integer(42));
    assert_eq!(vm.pop("test").unwrap(), Value::Integer(42));

    // Test SWAP
    vm.push(Value::Integer(1));
    vm.push(Value::Integer(2));
    vm.execute_builtin_with_context::<()>("SWAP", None).unwrap();
    assert_eq!(vm.pop("test").unwrap(), Value::Integer(1));
    assert_eq!(vm.pop("test").unwrap(), Value::Integer(2));
}
#[test]
fn test_vm_string_operations() {
    let mut vm = Vm::new();

    // ITOA
    vm.push(Value::Integer(42));
    vm.execute_builtin_with_context::<()>("ITOA", None).unwrap();
    assert_eq!(vm.pop("test").unwrap(), Value::String("42".to_string()));

    // ATOI
    vm.push(Value::String("123".to_string()));
    vm.execute_builtin_with_context::<()>("ATOI", None).unwrap();
    assert_eq!(vm.pop("test").unwrap(), Value::Integer(123));
}
#[test]
fn test_vm_say_command() {
    let mut vm = Vm::new();
    vm.push(Value::String("Hello World".to_string()));
    vm.execute_builtin_with_context::<()>("SAY", None).unwrap();
    assert_eq!(vm.output(), &["Hello World"]);
}
#[test]
fn test_vm_execution_limits_instructions() {
    let limits = ExecutionLimits::custom().with_max_instructions(10);
    let mut vm = Vm::with_limits(limits);
    vm.start_clock();

    // Execute 11 instructions should fail
    for _ in 0..11 {
        let result = vm.check_limits();
        if result.is_err() {
            assert!(matches!(result, Err(VmError::InstructionLimitExceeded)));
            return;
        }
    }
    panic!("Should have hit instruction limit");
}
#[test]
fn test_vm_new_builtins() {
    // Test PICK
    let vm = test_builtin("PICK", |vm| {
        vm.push(Value::Integer(1));
        vm.push(Value::Integer(2));
        vm.push(Value::Integer(3));
        vm.push(Value::Integer(1)); // Pick index 1 (should get value 2)
    });
    assert_eq!(vm.stack().last(), Some(&Value::Integer(2)));

    // Test STRLEN
    let vm = test_builtin("STRLEN", |vm| {
        vm.push(Value::String("hello".to_string()));
    });
    assert_eq!(vm.stack().last(), Some(&Value::Integer(5)));

    // Test UPPERCASE
    let vm = test_builtin("UPPERCASE", |vm| {
        vm.push(Value::String("hello".to_string()));
    });
    assert_eq!(vm.stack().last(), Some(&Value::String("HELLO".to_string())));

    // Test LOWERCASE
    let vm = test_builtin("LOWERCASE", |vm| {
        vm.push(Value::String("WORLD".to_string()));
    });
    assert_eq!(vm.stack().last(), Some(&Value::String("world".to_string())));
}
#[test]
fn test_vm_integration_greeting() {

    // Test action handler that captures SAY output
    struct TestActions {
        output: Vec<String>,
    }
    impl ScriptActions for TestActions {
        fn say(&mut self, message: &str) {
            self.output.push(message.to_string());
        }
        fn chat(&mut self, _message: &str) {}
        fn local_msg(&mut self, _message: &str) {}
        fn room_msg(&mut self, _message: &str) {}
        fn private_msg(&mut self, _user_id: i32, _message: &str) {}
        fn goto_room(&mut self, _room_id: i16) {}
        fn lock_door(&mut self, _door_id: i32) {}
        fn unlock_door(&mut self, _door_id: i32) {}
        fn set_face(&mut self, _face_id: i16) {}
        fn set_color(&mut self, _color: i16) {}
        fn set_props(&mut self, _props: Vec<AssetSpec>) {}
        fn set_pos(&mut self, _x: i16, _y: i16) {}
        fn move_user(&mut self, _dx: i16, _dy: i16) {}
        fn goto_url(&mut self, _url: &str) {}
        fn goto_url_frame(&mut self, _url: &str, _frame: &str) {}
        fn global_msg(&mut self, _message: &str) {}
        fn status_msg(&mut self, _message: &str) {}
        fn superuser_msg(&mut self, _message: &str) {}
        fn log_msg(&mut self, _message: &str) {}
        fn set_spot_state(&mut self, _spot_id: i32, _state: i32) {}
        fn add_loose_prop(&mut self, _prop_id: i32, _x: i16, _y: i16) {}
        fn clear_loose_props(&mut self) {}
        fn play_sound(&mut self, _sound_id: i32) {}
        fn play_midi(&mut self, _midi_id: i32) {}
        fn stop_midi(&mut self) {}
        fn beep(&mut self) {}
        fn launch_app(&mut self, _url: &str) {}
    }

    // Test a simple greeting script
    let source = r#"
        ON ENTER {
            USERNAME " has entered!" & SAY
        }
    "#;

    let mut lexer = Lexer::new(source);
    let tokens = lexer.tokenize().unwrap();
    let mut parser = Parser::new(tokens);
    let script = parser.parse().unwrap();

    let mut actions = TestActions {
        output: Vec::new(),
    };
    {
        let mut context = ScriptContext::new(SecurityLevel::Server, &mut actions);
        context.user_name = "Alice".to_string();
        context.event_type = EventType::Enter;

        let mut vm = Vm::new();
        vm.execute_handler(&script, EventType::Enter, &mut context)
            .unwrap();
    }

    assert_eq!(actions.output, vec!["Alice has entered!"]);
}
#[test]
fn test_vm_integration_counter() {

    // Test action handler that captures SAY output
    struct TestActions {
        output: Vec<String>,
    }
    impl ScriptActions for TestActions {
        fn say(&mut self, message: &str) {
            self.output.push(message.to_string());
        }
        fn chat(&mut self, _message: &str) {}
        fn local_msg(&mut self, _message: &str) {}
        fn room_msg(&mut self, _message: &str) {}
        fn private_msg(&mut self, _user_id: i32, _message: &str) {}
        fn goto_room(&mut self, _room_id: i16) {}
        fn lock_door(&mut self, _door_id: i32) {}
        fn unlock_door(&mut self, _door_id: i32) {}
        fn set_face(&mut self, _face_id: i16) {}
        fn set_color(&mut self, _color: i16) {}
        fn set_props(&mut self, _props: Vec<AssetSpec>) {}
        fn set_pos(&mut self, _x: i16, _y: i16) {}
        fn move_user(&mut self, _dx: i16, _dy: i16) {}
        fn goto_url(&mut self, _url: &str) {}
        fn goto_url_frame(&mut self, _url: &str, _frame: &str) {}
        fn global_msg(&mut self, _message: &str) {}
        fn status_msg(&mut self, _message: &str) {}
        fn superuser_msg(&mut self, _message: &str) {}
        fn log_msg(&mut self, _message: &str) {}
        fn set_spot_state(&mut self, _spot_id: i32, _state: i32) {}
        fn add_loose_prop(&mut self, _prop_id: i32, _x: i16, _y: i16) {}
        fn clear_loose_props(&mut self) {}
        fn play_sound(&mut self, _sound_id: i32) {}
        fn play_midi(&mut self, _midi_id: i32) {}
        fn stop_midi(&mut self) {}
        fn beep(&mut self) {}
        fn launch_app(&mut self, _url: &str) {}
    }

    // Test a script with variables and arithmetic
    let source = r#"
        ON SELECT {
            counter
            1 +
            counter =
            counter ITOA " clicks" & SAY
        }
    "#;

    let mut lexer = Lexer::new(source);
    let tokens = lexer.tokenize().unwrap();
    let mut parser = Parser::new(tokens);
    let script = parser.parse().unwrap();

    let mut actions = TestActions {
        output: Vec::new(),
    };
    let mut vm = Vm::new();
    vm.set_variable("counter".to_string(), Value::Integer(0));

    // Click once
    {
        let mut context = ScriptContext::new(SecurityLevel::Server, &mut actions);
        context.event_type = EventType::Select;
        vm.execute_handler(&script, EventType::Select, &mut context)
            .unwrap();
    }
    assert_eq!(actions.output, vec!["1 clicks"]);
    assert_eq!(vm.get_variable("counter"), Some(&Value::Integer(1)));

    // Click again
    actions.output.clear();
    {
        let mut context = ScriptContext::new(SecurityLevel::Server, &mut actions);
        context.event_type = EventType::Select;
        vm.execute_handler(&script, EventType::Select, &mut context)
            .unwrap();
    }
    assert_eq!(actions.output, vec!["2 clicks"]);
    assert_eq!(vm.get_variable("counter"), Some(&Value::Integer(2)));
}
#[test]
fn test_vm_integration_security() {

    // Test that cyborg scripts can't lock doors
    let source = r#"
        ON SELECT {
            1 LOCK
        }
    "#;

    let mut lexer = Lexer::new(source);
    let tokens = lexer.tokenize().unwrap();
    let mut parser = Parser::new(tokens);
    let script = parser.parse().unwrap();

    let mut actions = ();
    let mut context = ScriptContext::new(SecurityLevel::Cyborg, &mut actions);
    context.event_type = EventType::Select;

    let mut vm = Vm::new();
    let result = vm.execute_handler(&script, EventType::Select, &mut context);

    assert!(matches!(result, Err(VmError::SecurityViolation { .. })));
}
#[test]
fn test_vm_props_functions() {

    struct TestActions {
        color: i16,
        props: Vec<AssetSpec>,
    }

    impl ScriptActions for TestActions {
        fn say(&mut self, _message: &str) {}
        fn chat(&mut self, _message: &str) {}
        fn local_msg(&mut self, _message: &str) {}
        fn room_msg(&mut self, _message: &str) {}
        fn private_msg(&mut self, _user_id: i32, _message: &str) {}
        fn goto_room(&mut self, _room_id: i16) {}
        fn lock_door(&mut self, _door_id: i32) {}
        fn unlock_door(&mut self, _door_id: i32) {}
        fn set_face(&mut self, _face_id: i16) {}
        fn set_color(&mut self, color: i16) {
            self.color = color;
        }
        fn set_props(&mut self, props: Vec<AssetSpec>) {
            self.props = props;
        }
        fn set_pos(&mut self, _x: i16, _y: i16) {}
        fn move_user(&mut self, _dx: i16, _dy: i16) {}
        fn goto_url(&mut self, _url: &str) {}
        fn goto_url_frame(&mut self, _url: &str, _frame: &str) {}
        fn global_msg(&mut self, _message: &str) {}
        fn status_msg(&mut self, _message: &str) {}
        fn superuser_msg(&mut self, _message: &str) {}
        fn log_msg(&mut self, _message: &str) {}
        fn set_spot_state(&mut self, _spot_id: i32, _state: i32) {}
        fn add_loose_prop(&mut self, _prop_id: i32, _x: i16, _y: i16) {}
        fn clear_loose_props(&mut self) {}
        fn play_sound(&mut self, _sound_id: i32) {}
        fn play_midi(&mut self, _midi_id: i32) {}
        fn stop_midi(&mut self) {}
        fn beep(&mut self) {}
        fn launch_app(&mut self, _url: &str) {}
    }

    // Test SETCOLOR
    let source = r#"
        ON SELECT {
            5 SETCOLOR
        }
    "#;

    let mut lexer = Lexer::new(source);
    let tokens = lexer.tokenize().unwrap();
    let mut parser = Parser::new(tokens);
    let script = parser.parse().unwrap();

    let mut actions = TestActions {
        color: 0,
        props: Vec::new(),
    };
    {
        let mut context = ScriptContext::new(SecurityLevel::Server, &mut actions);
        context.event_type = EventType::Select;

        let mut vm = Vm::new();
        vm.execute_handler(&script, EventType::Select, &mut context)
            .unwrap();
    }

    assert_eq!(actions.color, 5);

    // Test GETPROPS
    let source = r#"
        ON SELECT {
            GETPROPS
        }
    "#;

    let mut lexer = Lexer::new(source);
    let tokens = lexer.tokenize().unwrap();
    let mut parser = Parser::new(tokens);
    let script = parser.parse().unwrap();

    let mut actions = TestActions {
        color: 0,
        props: Vec::new(),
    };
    {
        let mut context = ScriptContext::new(SecurityLevel::Server, &mut actions);
        context.event_type = EventType::Select;
        context.user_props = vec![
            AssetSpec { id: 100, crc: 12345 },
            AssetSpec { id: 200, crc: 67890 },
        ];

        let mut vm = Vm::new();
        vm.execute_handler(&script, EventType::Select, &mut context)
            .unwrap();

        // Stack should have: num_props, crc1, id1, crc2, id2
        assert_eq!(vm.stack().len(), 5);
        assert_eq!(vm.stack()[0], Value::Integer(2)); // num_props
        assert_eq!(vm.stack()[1], Value::Integer(12345)); // crc1
        assert_eq!(vm.stack()[2], Value::Integer(100)); // id1
        assert_eq!(vm.stack()[3], Value::Integer(67890)); // crc2
        assert_eq!(vm.stack()[4], Value::Integer(200)); // id2
    }

    // Test SETPROPS
    let source = r#"
        ON SELECT {
            11111 300 22222 400 2 SETPROPS
        }
    "#;

    let mut lexer = Lexer::new(source);
    let tokens = lexer.tokenize().unwrap();
    let mut parser = Parser::new(tokens);
    let script = parser.parse().unwrap();

    let mut actions = TestActions {
        color: 0,
        props: Vec::new(),
    };
    {
        let mut context = ScriptContext::new(SecurityLevel::Server, &mut actions);
        context.event_type = EventType::Select;

        let mut vm = Vm::new();
        vm.execute_handler(&script, EventType::Select, &mut context)
            .unwrap();
    }

    assert_eq!(actions.props.len(), 2);
    assert_eq!(actions.props[0].id, 400);
    assert_eq!(actions.props[0].crc, 22222);
    assert_eq!(actions.props[1].id, 300);
    assert_eq!(actions.props[1].crc, 11111);
}
#[test]
fn test_phase1_stack_operations() {
    let mut vm = Vm::new();

    // Test POP (alias for DROP)
    vm.push(Value::Integer(42));
    vm.push(Value::Integer(99));
    vm.execute_builtin_with_context::<()>("POP", None).unwrap();
    assert_eq!(vm.stack().len(), 1);
    assert_eq!(vm.stack()[0], Value::Integer(42));

    // Test STACKDEPTH
    vm.push(Value::Integer(1));
    vm.push(Value::Integer(2));
    // Stack now has: 42, 1, 2 (3 items)
    vm.execute_builtin_with_context::<()>("STACKDEPTH", None).unwrap();
    assert_eq!(vm.pop("test").unwrap(), Value::Integer(3));

    // Test TOPTYPE
    vm.push(Value::Integer(123));
    vm.execute_builtin_with_context::<()>("TOPTYPE", None).unwrap();
    assert_eq!(vm.pop("test").unwrap(), Value::Integer(1)); // 1 = integer

    vm.push(Value::String("test".to_string()));
    vm.execute_builtin_with_context::<()>("TOPTYPE", None).unwrap();
    assert_eq!(vm.pop("test").unwrap(), Value::Integer(2)); // 2 = string

    vm.push(Value::array(vec![Value::Integer(1), Value::Integer(2)]));
    vm.execute_builtin_with_context::<()>("TOPTYPE", None).unwrap();
    assert_eq!(vm.pop("test").unwrap(), Value::Integer(3)); // 3 = array

    // Test VARTYPE
    vm.set_variable("myint".to_string(), Value::Integer(42));
    vm.set_variable("mystr".to_string(), Value::String("hello".to_string()));
    vm.set_variable("myarr".to_string(), Value::array(vec![Value::Integer(1)]));

    vm.push(Value::String("myint".to_string()));
    vm.execute_builtin_with_context::<()>("VARTYPE", None).unwrap();
    assert_eq!(vm.pop("test").unwrap(), Value::Integer(1)); // integer

    vm.push(Value::String("mystr".to_string()));
    vm.execute_builtin_with_context::<()>("VARTYPE", None).unwrap();
    assert_eq!(vm.pop("test").unwrap(), Value::Integer(2)); // string

    vm.push(Value::String("myarr".to_string()));
    vm.execute_builtin_with_context::<()>("VARTYPE", None).unwrap();
    assert_eq!(vm.pop("test").unwrap(), Value::Integer(3)); // array

    // Non-existent variable should return 0
    vm.push(Value::String("nonexistent".to_string()));
    vm.execute_builtin_with_context::<()>("VARTYPE", None).unwrap();
    assert_eq!(vm.pop("test").unwrap(), Value::Integer(0));
}
#[test]
fn test_phase1_string_operations() {
    let mut vm = Vm::new();

    // Test UPPERCASE
    vm.push(Value::String("hello world".to_string()));
    vm.execute_builtin_with_context::<()>("UPPERCASE", None).unwrap();
    assert_eq!(vm.pop("test").unwrap(), Value::String("HELLO WORLD".to_string()));

    // Test LOWERCASE
    vm.push(Value::String("HELLO WORLD".to_string()));
    vm.execute_builtin_with_context::<()>("LOWERCASE", None).unwrap();
    assert_eq!(vm.pop("test").unwrap(), Value::String("hello world".to_string()));

    // Test SUBSTR - found
    vm.push(Value::String("hello world".to_string()));
    vm.push(Value::String("world".to_string()));
    vm.execute_builtin_with_context::<()>("SUBSTR", None).unwrap();
    assert_eq!(vm.pop("test").unwrap(), Value::Integer(1));

    // Test SUBSTR - not found
    vm.push(Value::String("hello world".to_string()));
    vm.push(Value::String("xyz".to_string()));
    vm.execute_builtin_with_context::<()>("SUBSTR", None).unwrap();
    assert_eq!(vm.pop("test").unwrap(), Value::Integer(0));

    // Test SUBSTRING
    vm.push(Value::String("hello world".to_string()));
    vm.push(Value::Integer(6)); // start
    vm.push(Value::Integer(5)); // length
    vm.execute_builtin_with_context::<()>("SUBSTRING", None).unwrap();
    assert_eq!(vm.pop("test").unwrap(), Value::String("world".to_string()));

    // Test STRINDEX - found
    vm.push(Value::String("hello world".to_string()));
    vm.push(Value::String("world".to_string()));
    vm.execute_builtin_with_context::<()>("STRINDEX", None).unwrap();
    assert_eq!(vm.pop("test").unwrap(), Value::Integer(6));

    // Test STRINDEX - not found
    vm.push(Value::String("hello world".to_string()));
    vm.push(Value::String("xyz".to_string()));
    vm.execute_builtin_with_context::<()>("STRINDEX", None).unwrap();
    assert_eq!(vm.pop("test").unwrap(), Value::Integer(-1));
}
#[test]
fn test_phase1_math_operations() {
    let mut vm = Vm::new();

    // Test RANDOM - should return 0..max-1
    vm.push(Value::Integer(100));
    vm.execute_builtin_with_context::<()>("RANDOM", None).unwrap();
    let result = vm.pop("test").unwrap();
    if let Value::Integer(n) = result {
        assert!(n >= 0 && n < 100);
    } else {
        panic!("RANDOM should return an integer");
    }

    // Test SQUAREROOT
    vm.push(Value::Integer(16));
    vm.execute_builtin_with_context::<()>("SQUAREROOT", None).unwrap();
    assert_eq!(vm.pop("test").unwrap(), Value::Integer(4));

    vm.push(Value::Integer(100));
    vm.execute_builtin_with_context::<()>("SQUAREROOT", None).unwrap();
    assert_eq!(vm.pop("test").unwrap(), Value::Integer(10));

    // Test SINE (returns sine * 1000)
    vm.push(Value::Integer(0));
    vm.execute_builtin_with_context::<()>("SINE", None).unwrap();
    let result = vm.pop("test").unwrap();
    if let Value::Integer(n) = result {
        assert_eq!(n, 0);
    }

    vm.push(Value::Integer(90));
    vm.execute_builtin_with_context::<()>("SINE", None).unwrap();
    let result = vm.pop("test").unwrap();
    if let Value::Integer(n) = result {
        assert!((n - 1000).abs() < 10); // Should be close to 1000
    }

    // Test COSINE (returns cosine * 1000)
    vm.push(Value::Integer(0));
    vm.execute_builtin_with_context::<()>("COSINE", None).unwrap();
    let result = vm.pop("test").unwrap();
    if let Value::Integer(n) = result {
        assert!((n - 1000).abs() < 10); // Should be close to 1000
    }

    vm.push(Value::Integer(90));
    vm.execute_builtin_with_context::<()>("COSINE", None).unwrap();
    let result = vm.pop("test").unwrap();
    if let Value::Integer(n) = result {
        assert_eq!(n, 0);
    }

    // Test TANGENT (returns tangent * 1000)
    vm.push(Value::Integer(0));
    vm.execute_builtin_with_context::<()>("TANGENT", None).unwrap();
    let result = vm.pop("test").unwrap();
    if let Value::Integer(n) = result {
        assert_eq!(n, 0);
    }

    vm.push(Value::Integer(45));
    vm.execute_builtin_with_context::<()>("TANGENT", None).unwrap();
    let result = vm.pop("test").unwrap();
    if let Value::Integer(n) = result {
        assert!((n - 1000).abs() < 10); // Should be close to 1000
    }
}
#[test]
fn test_phase1_array_operations() {
    let mut vm = Vm::new();

    // Test ARRAY
    vm.push(Value::Integer(5));
    vm.execute_builtin_with_context::<()>("ARRAY", None).unwrap();
    let arr = vm.pop("test").unwrap();
    assert!(arr.is_array());
    if let Value::Array(ref a) = arr {
        assert_eq!(a.len(), 5);
        // All elements should be initialized to 0
        for elem in a {
            assert_eq!(*elem, Value::Integer(0));
        }
    }

    // Test PUT and GET
    // Create array [0, 0, 0]
    vm.push(Value::Integer(3));
    vm.execute_builtin_with_context::<()>("ARRAY", None).unwrap();
    let arr = vm.pop("test").unwrap();
    
    // PUT value 42 at index 1
    vm.push(arr.clone());
    vm.push(Value::Integer(1));
    vm.push(Value::Integer(42));
    vm.execute_builtin_with_context::<()>("PUT", None).unwrap();
    let arr = vm.pop("test").unwrap();

    // GET value at index 1
    vm.push(arr.clone());
    vm.push(Value::Integer(1));
    vm.execute_builtin_with_context::<()>("GET", None).unwrap();
    assert_eq!(vm.pop("test").unwrap(), Value::Integer(42));

    // GET value at index 0 (should still be 0)
    vm.push(arr.clone());
    vm.push(Value::Integer(0));
    vm.execute_builtin_with_context::<()>("GET", None).unwrap();
    assert_eq!(vm.pop("test").unwrap(), Value::Integer(0));

    // Test LENGTH on array
    vm.push(arr);
    vm.execute_builtin_with_context::<()>("LENGTH", None).unwrap();
    assert_eq!(vm.pop("test").unwrap(), Value::Integer(3));

    // Test LENGTH on string
    vm.push(Value::String("hello".to_string()));
    vm.execute_builtin_with_context::<()>("LENGTH", None).unwrap();
    assert_eq!(vm.pop("test").unwrap(), Value::Integer(5));

    // Test LENGTH on integer (should return 0)
    vm.push(Value::Integer(42));
    vm.execute_builtin_with_context::<()>("LENGTH", None).unwrap();
    assert_eq!(vm.pop("test").unwrap(), Value::Integer(0));
}
#[test]
fn test_phase1_array_bounds_checking() {
    let mut vm = Vm::new();

    // Create array of size 3
    vm.push(Value::Integer(3));
    vm.execute_builtin_with_context::<()>("ARRAY", None).unwrap();
    let arr = vm.pop("test").unwrap();

    // Try to GET at negative index - should error
    vm.push(arr.clone());
    vm.push(Value::Integer(-1));
    let result = vm.execute_builtin_with_context::<()>("GET", None);
    assert!(matches!(result, Err(VmError::TypeError { .. })));

    // Try to GET at index >= length - should error
    vm.push(arr.clone());
    vm.push(Value::Integer(3));
    let result = vm.execute_builtin_with_context::<()>("GET", None);
    assert!(matches!(result, Err(VmError::TypeError { .. })));

    // Try to PUT at negative index - should error
    vm.push(arr.clone());
    vm.push(Value::Integer(-1));
    vm.push(Value::Integer(42));
    let result = vm.execute_builtin_with_context::<()>("PUT", None);
    assert!(matches!(result, Err(VmError::TypeError { .. })));

    // Try to PUT at index >= length - should error
    vm.push(arr.clone());
    vm.push(Value::Integer(3));
    vm.push(Value::Integer(42));
    let result = vm.execute_builtin_with_context::<()>("PUT", None);
    assert!(matches!(result, Err(VmError::TypeError { .. })));
}
#[test]
fn test_logic_operations() {
    let mut vm = Vm::new();

    // Test AND
    vm.push(Value::Integer(1)); // true
    vm.push(Value::Integer(1)); // true
    vm.execute_builtin_with_context::<()>("AND", None).unwrap();
    assert_eq!(vm.pop("test").unwrap(), Value::Integer(1));

    vm.push(Value::Integer(1)); // true
    vm.push(Value::Integer(0)); // false
    vm.execute_builtin_with_context::<()>("AND", None).unwrap();
    assert_eq!(vm.pop("test").unwrap(), Value::Integer(0));

    // Test OR
    vm.push(Value::Integer(0)); // false
    vm.push(Value::Integer(1)); // true
    vm.execute_builtin_with_context::<()>("OR", None).unwrap();
    assert_eq!(vm.pop("test").unwrap(), Value::Integer(1));

    vm.push(Value::Integer(0)); // false
    vm.push(Value::Integer(0)); // false
    vm.execute_builtin_with_context::<()>("OR", None).unwrap();
    assert_eq!(vm.pop("test").unwrap(), Value::Integer(0));

    // Test XOR
    vm.push(Value::Integer(1)); // true
    vm.push(Value::Integer(0)); // false
    vm.execute_builtin_with_context::<()>("XOR", None).unwrap();
    assert_eq!(vm.pop("test").unwrap(), Value::Integer(1));

    vm.push(Value::Integer(1)); // true
    vm.push(Value::Integer(1)); // true
    vm.execute_builtin_with_context::<()>("XOR", None).unwrap();
    assert_eq!(vm.pop("test").unwrap(), Value::Integer(0));

    // Test NOT
    vm.push(Value::Integer(1)); // true
    vm.execute_builtin_with_context::<()>("NOT", None).unwrap();
    assert_eq!(vm.pop("test").unwrap(), Value::Integer(0));

    vm.push(Value::Integer(0)); // false
    vm.execute_builtin_with_context::<()>("NOT", None).unwrap();
    assert_eq!(vm.pop("test").unwrap(), Value::Integer(1));
}