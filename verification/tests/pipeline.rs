use ffi_gen::abi::export::Instr as ExportInstr;
use ffi_gen::abi::import::Instr as ImportInstr;
use ffi_gen::abi::{Abi, NumType, Return};
use ffi_gen::parser::Interface;
use ffi_gen::shim::WasmMultiValueShim;

const INPUT: &str = r#"
//! An address book.

/// Counts the characters of a text.
fn strlen(s: &string) -> usize;
/// Looks a name up.
fn lookup(name: &string) -> Future<Result<Option<Entry>>>;

/// One entry of the book.
object Entry {
    /// Makes an entry.
    static fn create(name: string, tags: &[u8]) -> Entry;
    /// The name of the entry.
    fn name() -> string;
    /// Whether the entry is the same as another.
    fn same(other: &Entry) -> bool;
    /// The changes of the entry.
    fn changes() -> Stream<u64>;
}
"#;

#[test]
fn description_to_programs() {
    let iface = Interface::parse(INPUT).unwrap();
    assert_eq!(iface.doc, vec!["An address book.".to_string()]);
    assert_eq!(iface.validate(), Ok(()));
    let functions = iface.all_functions();
    let names: Vec<String> = functions.iter().map(|f| f.symbol()).collect();
    assert_eq!(
        names,
        vec![
            "__strlen",
            "__lookup",
            "__Entry_create",
            "__Entry_name",
            "__Entry_same",
            "__Entry_changes"
        ]
    );
    assert_eq!(iface.objects()[0].destructor, "drop_box_Entry");
    let polls: Vec<String> = iface
        .futures()
        .iter()
        .map(|f| f.poll().symbol())
        .chain(iface.streams().iter().map(|s| s.poll().symbol()))
        .collect();
    assert_eq!(polls, vec!["__lookup_future_poll", "__Entry_changes_stream_poll"]);
    for abi in [Abi::Native32, Abi::Native64, Abi::Wasm32, Abi::Wasm64] {
        assert!(iface.can_import(abi));
        let imports = iface.imports(&abi);
        assert_eq!(imports.len(), 8);
        for (func, import) in functions.iter().zip(&imports) {
            assert!(abi.can_export(func));
            let export = abi.export(func);
            assert_eq!(export.symbol, import.symbol);
            assert_eq!(export.ffi_args.len(), import.ffi_args.len());
            assert!(matches!(
                export.instr.iter().find(|i| matches!(i, ExportInstr::CallAbi(..))),
                Some(ExportInstr::CallAbi(_, _, name, _, _)) if *name == func.name
            ));
            assert!(matches!(
                import.instr.iter().find(|i| matches!(i, ImportInstr::Call(..))),
                Some(ImportInstr::Call(symbol, _, _)) if *symbol == export.symbol
            ));
        }
    }
    let strlen = Abi::Native64.export(&functions[0]);
    assert_eq!(strlen.ffi_args.len(), 2);
    assert!(matches!(&strlen.ffi_ret, Return::Num(var) if var.ty.num() == NumType::U64));
    let shim = WasmMultiValueShim::new();
    assert!(shim.can_generate(&iface));
    assert_eq!(
        shim.generate_args(&iface),
        vec![
            "\"__Entry_name i32 i32 i32 \"".to_string(),
            "\"__lookup_future_poll i32 i32 i32 i32 i32 i32 i32 \"".to_string(),
        ]
    );
}
