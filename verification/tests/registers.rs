use linevm::data_type::Data;
use linevm::data_type::Registers;

#[test]
fn values_fill_the_operand_registers_in_order() {
    let mut registers = Registers::new();
    assert_eq!(registers.load(Data::Integer(1)), Ok(()));
    assert_eq!(registers.load(Data::Integer(2)), Ok(()));
    assert!(matches!(registers.v1, Some(Data::Integer(1))));
    assert!(matches!(registers.v2, Some(Data::Integer(2))));
    assert_eq!(registers.load(Data::Integer(3)), Err(()));
    assert!(matches!(registers.v1, Some(Data::Integer(1))));
    assert!(matches!(registers.v2, Some(Data::Integer(2))));
}

#[test]
fn pending_result_becomes_first_operand() {
    let mut registers = Registers::new();
    registers.res = Some(Data::Integer(9));
    registers.v2 = Some(Data::Integer(7));
    assert_eq!(registers.load(Data::Integer(1)), Ok(()));
    assert!(matches!(registers.v1, Some(Data::Integer(9))));
    assert!(matches!(registers.v2, Some(Data::Integer(1))));
    assert!(registers.res.is_none());
}

#[test]
fn pending_result_with_first_operand_taken_leaves_no_room() {
    let mut registers = Registers::new();
    registers.res = Some(Data::Integer(9));
    registers.v1 = Some(Data::Integer(7));
    assert_eq!(registers.load(Data::Integer(1)), Err(()));
    assert!(matches!(registers.res, Some(Data::Integer(9))));
    assert!(matches!(registers.v1, Some(Data::Integer(7))));
    assert!(registers.v2.is_none());
}

#[test]
fn result_is_taken_once() {
    let mut registers = Registers::new();
    assert!(registers.unload().is_none());
    registers.res = Some(Data::Boolean(true));
    assert!(matches!(registers.unload(), Some(Data::Boolean(true))));
    assert!(registers.unload().is_none());
}

#[test]
fn parameters_are_set_once() {
    let mut registers = Registers::new();
    assert_eq!(registers.set_params(vec![]), Ok(()));
    assert_eq!(registers.set_params(vec![Data::Integer(1), Data::Integer(2)]), Ok(()));
    assert_eq!(registers.set_params(vec![Data::Integer(3)]), Err(()));
    assert_eq!(registers.params.len(), 2);
    assert!(matches!(registers.params[0], Data::Integer(1)));
}

#[test]
fn returned_values_are_taken_once() {
    let mut registers = Registers::new();
    registers.ret = vec![Data::Integer(4)];
    let values = registers.get_return();
    assert_eq!(values.len(), 1);
    assert!(matches!(values[0], Data::Integer(4)));
    assert!(registers.get_return().is_empty());
}
