//! The fixed enumeration of exception kinds the value model carries.
//!
//! The kinds and their wire names mirror the interpreter engine's own
//! exception classes, so an `Exception` value round-trips between the two.

use vstd::prelude::*;

verus! {

/// One exception class of the interpreter's fixed hierarchy.
#[derive(Clone, Copy, Debug, PartialEq, Eq, Structural)]
pub enum ExcKind {
    Exception,
    BaseException,
    SystemExit,
    KeyboardInterrupt,
    ArithmeticError,
    OverflowError,
    ZeroDivisionError,
    LookupError,
    IndexError,
    KeyError,
    RuntimeError,
    NotImplementedError,
    RecursionError,
    AttributeError,
    FrozenInstanceError,
    NameError,
    UnboundLocalError,
    ValueError,
    UnicodeDecodeError,
    UnicodeEncodeError,
    JsonDecodeError,
    ImportError,
    ModuleNotFoundError,
    OSError,
    FileNotFoundError,
    FileExistsError,
    IsADirectoryError,
    NotADirectoryError,
    PermissionError,
    UnsupportedOperation,
    TimeoutError,
    AssertionError,
    MemoryError,
    StopIteration,
    SyntaxError,
    TypeError,
    RePatternError,
    BinasciiError,
}

/// The wire name of an exception kind, as the engine renders it.
pub open spec fn exc_name(k: ExcKind) -> Seq<char> {
    match k {
        ExcKind::Exception => "Exception"@,
        ExcKind::BaseException => "BaseException"@,
        ExcKind::SystemExit => "SystemExit"@,
        ExcKind::KeyboardInterrupt => "KeyboardInterrupt"@,
        ExcKind::ArithmeticError => "ArithmeticError"@,
        ExcKind::OverflowError => "OverflowError"@,
        ExcKind::ZeroDivisionError => "ZeroDivisionError"@,
        ExcKind::LookupError => "LookupError"@,
        ExcKind::IndexError => "IndexError"@,
        ExcKind::KeyError => "KeyError"@,
        ExcKind::RuntimeError => "RuntimeError"@,
        ExcKind::NotImplementedError => "NotImplementedError"@,
        ExcKind::RecursionError => "RecursionError"@,
        ExcKind::AttributeError => "AttributeError"@,
        ExcKind::FrozenInstanceError => "FrozenInstanceError"@,
        ExcKind::NameError => "NameError"@,
        ExcKind::UnboundLocalError => "UnboundLocalError"@,
        ExcKind::ValueError => "ValueError"@,
        ExcKind::UnicodeDecodeError => "UnicodeDecodeError"@,
        ExcKind::UnicodeEncodeError => "UnicodeEncodeError"@,
        ExcKind::JsonDecodeError => "json.JSONDecodeError"@,
        ExcKind::ImportError => "ImportError"@,
        ExcKind::ModuleNotFoundError => "ModuleNotFoundError"@,
        ExcKind::OSError => "OSError"@,
        ExcKind::FileNotFoundError => "FileNotFoundError"@,
        ExcKind::FileExistsError => "FileExistsError"@,
        ExcKind::IsADirectoryError => "IsADirectoryError"@,
        ExcKind::NotADirectoryError => "NotADirectoryError"@,
        ExcKind::PermissionError => "PermissionError"@,
        ExcKind::UnsupportedOperation => "io.UnsupportedOperation"@,
        ExcKind::TimeoutError => "TimeoutError"@,
        ExcKind::AssertionError => "AssertionError"@,
        ExcKind::MemoryError => "MemoryError"@,
        ExcKind::StopIteration => "StopIteration"@,
        ExcKind::SyntaxError => "SyntaxError"@,
        ExcKind::TypeError => "TypeError"@,
        ExcKind::RePatternError => "re.PatternError"@,
        ExcKind::BinasciiError => "binascii.Error"@,
    }
}

/// The kind whose wire name is `s`, if any.
pub open spec fn exc_parse(s: Seq<char>) -> Option<ExcKind> {
    if s == exc_name(ExcKind::Exception) {
        Some(ExcKind::Exception)
    } else if s == exc_name(ExcKind::BaseException) {
        Some(ExcKind::BaseException)
    } else if s == exc_name(ExcKind::SystemExit) {
        Some(ExcKind::SystemExit)
    } else if s == exc_name(ExcKind::KeyboardInterrupt) {
        Some(ExcKind::KeyboardInterrupt)
    } else if s == exc_name(ExcKind::ArithmeticError) {
        Some(ExcKind::ArithmeticError)
    } else if s == exc_name(ExcKind::OverflowError) {
        Some(ExcKind::OverflowError)
    } else if s == exc_name(ExcKind::ZeroDivisionError) {
        Some(ExcKind::ZeroDivisionError)
    } else if s == exc_name(ExcKind::LookupError) {
        Some(ExcKind::LookupError)
    } else if s == exc_name(ExcKind::IndexError) {
        Some(ExcKind::IndexError)
    } else if s == exc_name(ExcKind::KeyError) {
        Some(ExcKind::KeyError)
    } else if s == exc_name(ExcKind::RuntimeError) {
        Some(ExcKind::RuntimeError)
    } else if s == exc_name(ExcKind::NotImplementedError) {
        Some(ExcKind::NotImplementedError)
    } else if s == exc_name(ExcKind::RecursionError) {
        Some(ExcKind::RecursionError)
    } else if s == exc_name(ExcKind::AttributeError) {
        Some(ExcKind::AttributeError)
    } else if s == exc_name(ExcKind::FrozenInstanceError) {
        Some(ExcKind::FrozenInstanceError)
    } else if s == exc_name(ExcKind::NameError) {
        Some(ExcKind::NameError)
    } else if s == exc_name(ExcKind::UnboundLocalError) {
        Some(ExcKind::UnboundLocalError)
    } else if s == exc_name(ExcKind::ValueError) {
        Some(ExcKind::ValueError)
    } else if s == exc_name(ExcKind::UnicodeDecodeError) {
        Some(ExcKind::UnicodeDecodeError)
    } else if s == exc_name(ExcKind::UnicodeEncodeError) {
        Some(ExcKind::UnicodeEncodeError)
    } else if s == exc_name(ExcKind::JsonDecodeError) {
        Some(ExcKind::JsonDecodeError)
    } else if s == exc_name(ExcKind::ImportError) {
        Some(ExcKind::ImportError)
    } else if s == exc_name(ExcKind::ModuleNotFoundError) {
        Some(ExcKind::ModuleNotFoundError)
    } else if s == exc_name(ExcKind::OSError) {
        Some(ExcKind::OSError)
    } else if s == exc_name(ExcKind::FileNotFoundError) {
        Some(ExcKind::FileNotFoundError)
    } else if s == exc_name(ExcKind::FileExistsError) {
        Some(ExcKind::FileExistsError)
    } else if s == exc_name(ExcKind::IsADirectoryError) {
        Some(ExcKind::IsADirectoryError)
    } else if s == exc_name(ExcKind::NotADirectoryError) {
        Some(ExcKind::NotADirectoryError)
    } else if s == exc_name(ExcKind::PermissionError) {
        Some(ExcKind::PermissionError)
    } else if s == exc_name(ExcKind::UnsupportedOperation) {
        Some(ExcKind::UnsupportedOperation)
    } else if s == exc_name(ExcKind::TimeoutError) {
        Some(ExcKind::TimeoutError)
    } else if s == exc_name(ExcKind::AssertionError) {
        Some(ExcKind::AssertionError)
    } else if s == exc_name(ExcKind::MemoryError) {
        Some(ExcKind::MemoryError)
    } else if s == exc_name(ExcKind::StopIteration) {
        Some(ExcKind::StopIteration)
    } else if s == exc_name(ExcKind::SyntaxError) {
        Some(ExcKind::SyntaxError)
    } else if s == exc_name(ExcKind::TypeError) {
        Some(ExcKind::TypeError)
    } else if s == exc_name(ExcKind::RePatternError) {
        Some(ExcKind::RePatternError)
    } else if s == exc_name(ExcKind::BinasciiError) {
        Some(ExcKind::BinasciiError)
    } else {
        None
    }
}

impl ExcKind {
    /// Renders the kind's wire name.
    pub fn name_string(&self) -> (r: String)
        ensures
            r@ == exc_name(*self),
    {
        match self {
            ExcKind::Exception => "Exception".to_owned(),
            ExcKind::BaseException => "BaseException".to_owned(),
            ExcKind::SystemExit => "SystemExit".to_owned(),
            ExcKind::KeyboardInterrupt => "KeyboardInterrupt".to_owned(),
            ExcKind::ArithmeticError => "ArithmeticError".to_owned(),
            ExcKind::OverflowError => "OverflowError".to_owned(),
            ExcKind::ZeroDivisionError => "ZeroDivisionError".to_owned(),
            ExcKind::LookupError => "LookupError".to_owned(),
            ExcKind::IndexError => "IndexError".to_owned(),
            ExcKind::KeyError => "KeyError".to_owned(),
            ExcKind::RuntimeError => "RuntimeError".to_owned(),
            ExcKind::NotImplementedError => "NotImplementedError".to_owned(),
            ExcKind::RecursionError => "RecursionError".to_owned(),
            ExcKind::AttributeError => "AttributeError".to_owned(),
            ExcKind::FrozenInstanceError => "FrozenInstanceError".to_owned(),
            ExcKind::NameError => "NameError".to_owned(),
            ExcKind::UnboundLocalError => "UnboundLocalError".to_owned(),
            ExcKind::ValueError => "ValueError".to_owned(),
            ExcKind::UnicodeDecodeError => "UnicodeDecodeError".to_owned(),
            ExcKind::UnicodeEncodeError => "UnicodeEncodeError".to_owned(),
            ExcKind::JsonDecodeError => "json.JSONDecodeError".to_owned(),
            ExcKind::ImportError => "ImportError".to_owned(),
            ExcKind::ModuleNotFoundError => "ModuleNotFoundError".to_owned(),
            ExcKind::OSError => "OSError".to_owned(),
            ExcKind::FileNotFoundError => "FileNotFoundError".to_owned(),
            ExcKind::FileExistsError => "FileExistsError".to_owned(),
            ExcKind::IsADirectoryError => "IsADirectoryError".to_owned(),
            ExcKind::NotADirectoryError => "NotADirectoryError".to_owned(),
            ExcKind::PermissionError => "PermissionError".to_owned(),
            ExcKind::UnsupportedOperation => "io.UnsupportedOperation".to_owned(),
            ExcKind::TimeoutError => "TimeoutError".to_owned(),
            ExcKind::AssertionError => "AssertionError".to_owned(),
            ExcKind::MemoryError => "MemoryError".to_owned(),
            ExcKind::StopIteration => "StopIteration".to_owned(),
            ExcKind::SyntaxError => "SyntaxError".to_owned(),
            ExcKind::TypeError => "TypeError".to_owned(),
            ExcKind::RePatternError => "re.PatternError".to_owned(),
            ExcKind::BinasciiError => "binascii.Error".to_owned(),
        }
    }

    /// Parses a wire name back into a kind; `None` for an unknown name.
    pub fn parse_name(s: &String) -> (r: Option<ExcKind>)
        ensures
            r == exc_parse(s@),
    {
        if *s == String::from_str("Exception") {
            Some(ExcKind::Exception)
        } else if *s == String::from_str("BaseException") {
            Some(ExcKind::BaseException)
        } else if *s == String::from_str("SystemExit") {
            Some(ExcKind::SystemExit)
        } else if *s == String::from_str("KeyboardInterrupt") {
            Some(ExcKind::KeyboardInterrupt)
        } else if *s == String::from_str("ArithmeticError") {
            Some(ExcKind::ArithmeticError)
        } else if *s == String::from_str("OverflowError") {
            Some(ExcKind::OverflowError)
        } else if *s == String::from_str("ZeroDivisionError") {
            Some(ExcKind::ZeroDivisionError)
        } else if *s == String::from_str("LookupError") {
            Some(ExcKind::LookupError)
        } else if *s == String::from_str("IndexError") {
            Some(ExcKind::IndexError)
        } else if *s == String::from_str("KeyError") {
            Some(ExcKind::KeyError)
        } else if *s == String::from_str("RuntimeError") {
            Some(ExcKind::RuntimeError)
        } else if *s == String::from_str("NotImplementedError") {
            Some(ExcKind::NotImplementedError)
        } else if *s == String::from_str("RecursionError") {
            Some(ExcKind::RecursionError)
        } else if *s == String::from_str("AttributeError") {
            Some(ExcKind::AttributeError)
        } else if *s == String::from_str("FrozenInstanceError") {
            Some(ExcKind::FrozenInstanceError)
        } else if *s == String::from_str("NameError") {
            Some(ExcKind::NameError)
        } else if *s == String::from_str("UnboundLocalError") {
            Some(ExcKind::UnboundLocalError)
        } else if *s == String::from_str("ValueError") {
            Some(ExcKind::ValueError)
        } else if *s == String::from_str("UnicodeDecodeError") {
            Some(ExcKind::UnicodeDecodeError)
        } else if *s == String::from_str("UnicodeEncodeError") {
            Some(ExcKind::UnicodeEncodeError)
        } else if *s == String::from_str("json.JSONDecodeError") {
            Some(ExcKind::JsonDecodeError)
        } else if *s == String::from_str("ImportError") {
            Some(ExcKind::ImportError)
        } else if *s == String::from_str("ModuleNotFoundError") {
            Some(ExcKind::ModuleNotFoundError)
        } else if *s == String::from_str("OSError") {
            Some(ExcKind::OSError)
        } else if *s == String::from_str("FileNotFoundError") {
            Some(ExcKind::FileNotFoundError)
        } else if *s == String::from_str("FileExistsError") {
            Some(ExcKind::FileExistsError)
        } else if *s == String::from_str("IsADirectoryError") {
            Some(ExcKind::IsADirectoryError)
        } else if *s == String::from_str("NotADirectoryError") {
            Some(ExcKind::NotADirectoryError)
        } else if *s == String::from_str("PermissionError") {
            Some(ExcKind::PermissionError)
        } else if *s == String::from_str("io.UnsupportedOperation") {
            Some(ExcKind::UnsupportedOperation)
        } else if *s == String::from_str("TimeoutError") {
            Some(ExcKind::TimeoutError)
        } else if *s == String::from_str("AssertionError") {
            Some(ExcKind::AssertionError)
        } else if *s == String::from_str("MemoryError") {
            Some(ExcKind::MemoryError)
        } else if *s == String::from_str("StopIteration") {
            Some(ExcKind::StopIteration)
        } else if *s == String::from_str("SyntaxError") {
            Some(ExcKind::SyntaxError)
        } else if *s == String::from_str("TypeError") {
            Some(ExcKind::TypeError)
        } else if *s == String::from_str("re.PatternError") {
            Some(ExcKind::RePatternError)
        } else if *s == String::from_str("binascii.Error") {
            Some(ExcKind::BinasciiError)
        } else {
            None
        }
    }
}

/// Every exception kind's wire name parses back to that same kind: the wire
/// names are pairwise distinct, so the name is a faithful key for the kind.
#[verifier::rlimit(100)]
pub proof fn lemma_exc_name_round_trip(k: ExcKind)
    ensures
        exc_parse(exc_name(k)) == Some(k),
{
    reveal_strlit("Exception");
    reveal_strlit("BaseException");
    reveal_strlit("SystemExit");
    reveal_strlit("KeyboardInterrupt");
    reveal_strlit("ArithmeticError");
    reveal_strlit("OverflowError");
    reveal_strlit("ZeroDivisionError");
    reveal_strlit("LookupError");
    reveal_strlit("IndexError");
    reveal_strlit("KeyError");
    reveal_strlit("RuntimeError");
    reveal_strlit("NotImplementedError");
    reveal_strlit("RecursionError");
    reveal_strlit("AttributeError");
    reveal_strlit("FrozenInstanceError");
    reveal_strlit("NameError");
    reveal_strlit("UnboundLocalError");
    reveal_strlit("ValueError");
    reveal_strlit("UnicodeDecodeError");
    reveal_strlit("UnicodeEncodeError");
    reveal_strlit("json.JSONDecodeError");
    reveal_strlit("ImportError");
    reveal_strlit("ModuleNotFoundError");
    reveal_strlit("OSError");
    reveal_strlit("FileNotFoundError");
    reveal_strlit("FileExistsError");
    reveal_strlit("IsADirectoryError");
    reveal_strlit("NotADirectoryError");
    reveal_strlit("PermissionError");
    reveal_strlit("io.UnsupportedOperation");
    reveal_strlit("TimeoutError");
    reveal_strlit("AssertionError");
    reveal_strlit("MemoryError");
    reveal_strlit("StopIteration");
    reveal_strlit("SyntaxError");
    reveal_strlit("TypeError");
    reveal_strlit("re.PatternError");
    reveal_strlit("binascii.Error");
    assert("Exception"@.len() == 9);
    assert("Exception"@[0] == 'E');
    assert("Exception"@[1] == 'x');
    assert("BaseException"@.len() == 13);
    assert("BaseException"@[0] == 'B');
    assert("BaseException"@[1] == 'a');
    assert("SystemExit"@.len() == 10);
    assert("SystemExit"@[0] == 'S');
    assert("SystemExit"@[1] == 'y');
    assert("KeyboardInterrupt"@.len() == 17);
    assert("KeyboardInterrupt"@[0] == 'K');
    assert("KeyboardInterrupt"@[1] == 'e');
    assert("ArithmeticError"@.len() == 15);
    assert("ArithmeticError"@[0] == 'A');
    assert("ArithmeticError"@[1] == 'r');
    assert("OverflowError"@.len() == 13);
    assert("OverflowError"@[0] == 'O');
    assert("OverflowError"@[1] == 'v');
    assert("ZeroDivisionError"@.len() == 17);
    assert("ZeroDivisionError"@[0] == 'Z');
    assert("ZeroDivisionError"@[1] == 'e');
    assert("LookupError"@.len() == 11);
    assert("LookupError"@[0] == 'L');
    assert("LookupError"@[1] == 'o');
    assert("IndexError"@.len() == 10);
    assert("IndexError"@[0] == 'I');
    assert("IndexError"@[1] == 'n');
    assert("KeyError"@.len() == 8);
    assert("KeyError"@[0] == 'K');
    assert("KeyError"@[1] == 'e');
    assert("RuntimeError"@.len() == 12);
    assert("RuntimeError"@[0] == 'R');
    assert("RuntimeError"@[1] == 'u');
    assert("NotImplementedError"@.len() == 19);
    assert("NotImplementedError"@[0] == 'N');
    assert("NotImplementedError"@[1] == 'o');
    assert("RecursionError"@.len() == 14);
    assert("RecursionError"@[0] == 'R');
    assert("RecursionError"@[1] == 'e');
    assert("AttributeError"@.len() == 14);
    assert("AttributeError"@[0] == 'A');
    assert("AttributeError"@[1] == 't');
    assert("FrozenInstanceError"@.len() == 19);
    assert("FrozenInstanceError"@[0] == 'F');
    assert("FrozenInstanceError"@[1] == 'r');
    assert("NameError"@.len() == 9);
    assert("NameError"@[0] == 'N');
    assert("NameError"@[1] == 'a');
    assert("UnboundLocalError"@.len() == 17);
    assert("UnboundLocalError"@[0] == 'U');
    assert("UnboundLocalError"@[1] == 'n');
    assert("ValueError"@.len() == 10);
    assert("ValueError"@[0] == 'V');
    assert("ValueError"@[1] == 'a');
    assert("UnicodeDecodeError"@.len() == 18);
    assert("UnicodeDecodeError"@[0] == 'U');
    assert("UnicodeDecodeError"@[1] == 'n');
    assert("UnicodeEncodeError"@.len() == 18);
    assert("UnicodeEncodeError"@[0] == 'U');
    assert("UnicodeEncodeError"@[1] == 'n');
    assert("json.JSONDecodeError"@.len() == 20);
    assert("json.JSONDecodeError"@[0] == 'j');
    assert("json.JSONDecodeError"@[1] == 's');
    assert("ImportError"@.len() == 11);
    assert("ImportError"@[0] == 'I');
    assert("ImportError"@[1] == 'm');
    assert("ModuleNotFoundError"@.len() == 19);
    assert("ModuleNotFoundError"@[0] == 'M');
    assert("ModuleNotFoundError"@[1] == 'o');
    assert("OSError"@.len() == 7);
    assert("OSError"@[0] == 'O');
    assert("OSError"@[1] == 'S');
    assert("FileNotFoundError"@.len() == 17);
    assert("FileNotFoundError"@[0] == 'F');
    assert("FileNotFoundError"@[1] == 'i');
    assert("FileExistsError"@.len() == 15);
    assert("FileExistsError"@[0] == 'F');
    assert("FileExistsError"@[1] == 'i');
    assert("IsADirectoryError"@.len() == 17);
    assert("IsADirectoryError"@[0] == 'I');
    assert("IsADirectoryError"@[1] == 's');
    assert("NotADirectoryError"@.len() == 18);
    assert("NotADirectoryError"@[0] == 'N');
    assert("NotADirectoryError"@[1] == 'o');
    assert("PermissionError"@.len() == 15);
    assert("PermissionError"@[0] == 'P');
    assert("PermissionError"@[1] == 'e');
    assert("io.UnsupportedOperation"@.len() == 23);
    assert("io.UnsupportedOperation"@[0] == 'i');
    assert("io.UnsupportedOperation"@[1] == 'o');
    assert("TimeoutError"@.len() == 12);
    assert("TimeoutError"@[0] == 'T');
    assert("TimeoutError"@[1] == 'i');
    assert("AssertionError"@.len() == 14);
    assert("AssertionError"@[0] == 'A');
    assert("AssertionError"@[1] == 's');
    assert("MemoryError"@.len() == 11);
    assert("MemoryError"@[0] == 'M');
    assert("MemoryError"@[1] == 'e');
    assert("StopIteration"@.len() == 13);
    assert("StopIteration"@[0] == 'S');
    assert("StopIteration"@[1] == 't');
    assert("SyntaxError"@.len() == 11);
    assert("SyntaxError"@[0] == 'S');
    assert("SyntaxError"@[1] == 'y');
    assert("TypeError"@.len() == 9);
    assert("TypeError"@[0] == 'T');
    assert("TypeError"@[1] == 'y');
    assert("re.PatternError"@.len() == 15);
    assert("re.PatternError"@[0] == 'r');
    assert("re.PatternError"@[1] == 'e');
    assert("binascii.Error"@.len() == 14);
    assert("binascii.Error"@[0] == 'b');
    assert("binascii.Error"@[1] == 'i');
    assert("UnicodeDecodeError"@[7] == 'D');
    assert("UnicodeEncodeError"@[7] == 'E');
}

} // verus!

