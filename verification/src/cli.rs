//! The command line: the commands, how they are read from the arguments of
//! the program, and how each is carried out on the inventory service.

use crate::catalog::{enumerates, low_stock_part};
use crate::clock::{instant_read, read_datetime};
use crate::errors::{ServiceError, ServiceErrorView};
use crate::inventory::{Inventory, Operation};
use crate::models::{
    same_text, text_view, Product, Timestamp, Transaction, TransactionType, TransactionView,
};
use crate::render::{error_text, format_error, render, Reply, ReplyView};
use crate::service::{amount_view, answers, movement_of, product_of, InventoryService};
use crate::text::{parse_u32, parsed_u32};
use vstd::prelude::*;
use vstd::slice::slice_subrange;
use vstd::string::*;

verus! {

/// A command of the command line.
#[derive(Debug)]
#[allow(inconsistent_fields)]
pub enum Command {
    /// File a new product.
    AddProduct { sku: String, name: String, description: String, quantity: u32, reorder_point: u32 },
    /// Change details of a product.
    UpdateProduct {
        sku: String,
        name: Option<String>,
        description: Option<String>,
        reorder_point: Option<u32>,
    },
    /// Add stock to a product.
    AddStock { sku: String, quantity: u32, notes: Option<String> },
    /// Take stock from a product.
    RemoveStock { sku: String, quantity: u32, notes: Option<String> },
    /// Show one product.
    ViewProduct { sku: String },
    /// Show every product.
    ListProducts,
    /// Show the products that are low on stock.
    LowStock,
    /// Show the movements of a product, between two instants where both are given.
    History { sku: String, start: Option<Timestamp>, end: Option<Timestamp> },
    /// Delete a product.
    DeleteProduct { sku: String },
    /// Show the help text.
    Help,
}

/// What a `Command` holds, as mathematical values.
#[allow(inconsistent_fields)]
pub enum CommandView {
    AddProduct {
        sku: Seq<char>,
        name: Seq<char>,
        description: Seq<char>,
        quantity: u32,
        reorder_point: u32,
    },
    UpdateProduct {
        sku: Seq<char>,
        name: Option<Seq<char>>,
        description: Option<Seq<char>>,
        reorder_point: Option<u32>,
    },
    AddStock { sku: Seq<char>, quantity: u32, notes: Option<Seq<char>> },
    RemoveStock { sku: Seq<char>, quantity: u32, notes: Option<Seq<char>> },
    ViewProduct { sku: Seq<char> },
    ListProducts,
    LowStock,
    History { sku: Seq<char>, start: Option<Timestamp>, end: Option<Timestamp> },
    DeleteProduct { sku: Seq<char> },
    Help,
}

impl View for Command {
    type V = CommandView;

    open spec fn view(&self) -> CommandView {
        match self {
            Command::AddProduct { sku, name, description, quantity, reorder_point } =>
                CommandView::AddProduct {
                    sku: sku@,
                    name: name@,
                    description: description@,
                    quantity: *quantity,
                    reorder_point: *reorder_point,
                },
            Command::UpdateProduct { sku, name, description, reorder_point } =>
                CommandView::UpdateProduct {
                    sku: sku@,
                    name: text_view(*name),
                    description: text_view(*description),
                    reorder_point: *reorder_point,
                },
            Command::AddStock { sku, quantity, notes } => CommandView::AddStock {
                sku: sku@,
                quantity: *quantity,
                notes: text_view(*notes),
            },
            Command::RemoveStock { sku, quantity, notes } => CommandView::RemoveStock {
                sku: sku@,
                quantity: *quantity,
                notes: text_view(*notes),
            },
            Command::ViewProduct { sku } => CommandView::ViewProduct { sku: sku@ },
            Command::ListProducts => CommandView::ListProducts,
            Command::LowStock => CommandView::LowStock,
            Command::History { sku, start, end } => CommandView::History {
                sku: sku@,
                start: *start,
                end: *end,
            },
            Command::DeleteProduct { sku } => CommandView::DeleteProduct { sku: sku@ },
            Command::Help => CommandView::Help,
        }
    }
}

fn same_amount(a: &Option<u32>, b: &Option<u32>) -> (r: bool)
    ensures
        r == (*a == *b),
{
    match (a, b) {
        (Some(x), Some(y)) => *x == *y,
        (None, None) => true,
        _ => false,
    }
}

fn same_instant(a: &Option<Timestamp>, b: &Option<Timestamp>) -> (r: bool)
    ensures
        r == (*a == *b),
{
    match (a, b) {
        (Some(x), Some(y)) => x.secs == y.secs && x.nanos == y.nanos,
        (None, None) => true,
        _ => false,
    }
}

impl PartialEq for Command {
    fn eq(&self, other: &Self) -> (r: bool) {
        match (self, other) {
            (
                Command::AddProduct { sku, name, description, quantity, reorder_point },
                Command::AddProduct {
                    sku: sku2,
                    name: name2,
                    description: description2,
                    quantity: quantity2,
                    reorder_point: reorder_point2,
                },
            ) => *sku == *sku2 && *name == *name2 && *description == *description2 && *quantity
                == *quantity2 && *reorder_point == *reorder_point2,
            (
                Command::UpdateProduct { sku, name, description, reorder_point },
                Command::UpdateProduct {
                    sku: sku2,
                    name: name2,
                    description: description2,
                    reorder_point: reorder_point2,
                },
            ) => *sku == *sku2 && same_text(name, name2) && same_text(description, description2)
                && same_amount(reorder_point, reorder_point2),
            (
                Command::AddStock { sku, quantity, notes },
                Command::AddStock { sku: sku2, quantity: quantity2, notes: notes2 },
            ) => *sku == *sku2 && *quantity == *quantity2 && same_text(notes, notes2),
            (
                Command::RemoveStock { sku, quantity, notes },
                Command::RemoveStock { sku: sku2, quantity: quantity2, notes: notes2 },
            ) => *sku == *sku2 && *quantity == *quantity2 && same_text(notes, notes2),
            (Command::ViewProduct { sku }, Command::ViewProduct { sku: sku2 }) => *sku == *sku2,
            (Command::ListProducts, Command::ListProducts) => true,
            (Command::LowStock, Command::LowStock) => true,
            (
                Command::History { sku, start, end },
                Command::History { sku: sku2, start: start2, end: end2 },
            ) => *sku == *sku2 && same_instant(start, start2) && same_instant(end, end2),
            (Command::DeleteProduct { sku }, Command::DeleteProduct { sku: sku2 }) => *sku
                == *sku2,
            (Command::Help, Command::Help) => true,
            _ => false,
        }
    }
}

impl vstd::std_specs::cmp::PartialEqSpecImpl for Command {
    open spec fn obeys_eq_spec() -> bool {
        true
    }

    open spec fn eq_spec(&self, other: &Self) -> bool {
        self@ == other@
    }
}

pub const USAGE_ADD_PRODUCT: &'static str =
    "Usage: add-product <sku> <name> <description> <quantity> <reorder_point>\nExample: add-product SKU001 \"Widget\" \"A useful widget\" 100 20";

pub const USAGE_UPDATE_PRODUCT: &'static str =
    "Usage: update-product <sku> [--name <name>] [--description <desc>] [--reorder-point <n>]\nExample: update-product SKU001 --name \"New Name\" --reorder-point 30";

pub const USAGE_ADD_STOCK: &'static str =
    "Usage: add-stock <sku> <quantity> [--notes <notes>]\nExample: add-stock SKU001 50 --notes \"Received shipment\"";

pub const USAGE_REMOVE_STOCK: &'static str =
    "Usage: remove-stock <sku> <quantity> [--notes <notes>]\nExample: remove-stock SKU001 10 --notes \"Sold to customer\"";

pub const USAGE_VIEW_PRODUCT: &'static str = "Usage: view-product <sku>\nExample: view-product SKU001";

pub const USAGE_HISTORY: &'static str =
    "Usage: history <sku> [--start <datetime>] [--end <datetime>]\nExample: history SKU001 --start 2025-01-01T00:00:00 --end 2025-12-31T23:59:59";

pub const USAGE_DELETE_PRODUCT: &'static str =
    "Usage: delete-product <sku>\nExample: delete-product SKU001";

/// The result of reading a command, with the command and the message by
/// their views.
pub open spec fn reading_view(r: Result<Command, String>) -> Result<CommandView, Seq<char>> {
    match r {
        Ok(c) => Ok(c@),
        Err(m) => Err(m@),
    }
}

/// The message for a text that is no amount.
pub open spec fn invalid_amount(what: Seq<char>, text: Seq<char>, kind: Seq<char>) -> Seq<char> {
    "Invalid "@ + what + " '"@ + text + "': must be a "@ + kind + " integer"@
}

/// The message for a text that is no date and time.
pub open spec fn invalid_datetime(text: Seq<char>) -> Seq<char> {
    "Invalid datetime '"@ + text + "': expected format YYYY-MM-DDTHH:MM:SS"@
}

/// The amount that a text stands for, or the message that says that it
/// stands for none.
pub open spec fn amount_read(text: Seq<char>, what: Seq<char>, kind: Seq<char>) -> Result<
    u32,
    Seq<char>,
> {
    match parsed_u32(text) {
        Some(n) => Ok(n),
        None => Err(invalid_amount(what, text, kind)),
    }
}

/// What `add-product` and its arguments mean.
pub open spec fn read_add_product(args: Seq<Seq<char>>) -> Result<CommandView, Seq<char>> {
    if args.len() < 5 {
        Err(USAGE_ADD_PRODUCT@)
    } else {
        match amount_read(args[3], "quantity"@, "non-negative"@) {
            Err(m) => Err(m),
            Ok(quantity) => match amount_read(args[4], "reorder point"@, "non-negative"@) {
                Err(m) => Err(m),
                Ok(reorder_point) => Ok(
                    CommandView::AddProduct {
                        sku: args[0],
                        name: args[1],
                        description: args[2],
                        quantity,
                        reorder_point,
                    },
                ),
            },
        }
    }
}

/// What the options of `update-product` from position `i` on mean, given
/// what the options before them have set.
pub open spec fn read_update_options(
    args: Seq<Seq<char>>,
    i: int,
    name: Option<Seq<char>>,
    description: Option<Seq<char>>,
    reorder_point: Option<u32>,
) -> Result<CommandView, Seq<char>>
    decreases args.len() - i,
{
    if i < 1 || i >= args.len() {
        Ok(CommandView::UpdateProduct { sku: args[0], name, description, reorder_point })
    } else if args[i] == "--name"@ {
        if i + 1 >= args.len() {
            Err("--name requires a value"@)
        } else {
            read_update_options(args, i + 2, Some(args[i + 1]), description, reorder_point)
        }
    } else if args[i] == "--description"@ {
        if i + 1 >= args.len() {
            Err("--description requires a value"@)
        } else {
            read_update_options(args, i + 2, name, Some(args[i + 1]), reorder_point)
        }
    } else if args[i] == "--reorder-point"@ {
        if i + 1 >= args.len() {
            Err("--reorder-point requires a value"@)
        } else {
            match amount_read(args[i + 1], "reorder point"@, "non-negative"@) {
                Err(m) => Err(m),
                Ok(n) => read_update_options(args, i + 2, name, description, Some(n)),
            }
        }
    } else {
        Err(
            "Unknown option: '"@ + args[i]
                + "'. Valid options: --name, --description, --reorder-point"@,
        )
    }
}

/// What `update-product` and its arguments mean.
pub open spec fn read_update_product(args: Seq<Seq<char>>) -> Result<CommandView, Seq<char>> {
    if args.len() == 0 {
        Err(USAGE_UPDATE_PRODUCT@)
    } else {
        read_update_options(args, 1, None, None, None)
    }
}

/// The notes that follow the SKU and the quantity of a stock command.
pub open spec fn read_notes(args: Seq<Seq<char>>) -> Result<Option<Seq<char>>, Seq<char>> {
    if args.len() > 2 && args[2] == "--notes"@ {
        if args.len() > 3 {
            Ok(Some(args[3]))
        } else {
            Err("--notes requires a value"@)
        }
    } else {
        Ok(None)
    }
}

/// What `add-stock` (where `adding`) or `remove-stock` and its arguments mean.
pub open spec fn read_stock(args: Seq<Seq<char>>, adding: bool) -> Result<CommandView, Seq<char>> {
    if args.len() < 2 {
        Err(
            if adding {
                USAGE_ADD_STOCK@
            } else {
                USAGE_REMOVE_STOCK@
            },
        )
    } else {
        match amount_read(args[1], "quantity"@, "positive"@) {
            Err(m) => Err(m),
            Ok(quantity) => match read_notes(args) {
                Err(m) => Err(m),
                Ok(notes) => Ok(
                    if adding {
                        CommandView::AddStock { sku: args[0], quantity, notes }
                    } else {
                        CommandView::RemoveStock { sku: args[0], quantity, notes }
                    },
                ),
            },
        }
    }
}

/// What the options of `history` from position `i` on mean, given what the
/// options before them have set.
pub open spec fn read_history_options(
    args: Seq<Seq<char>>,
    i: int,
    start: Option<Timestamp>,
    end: Option<Timestamp>,
) -> Result<CommandView, Seq<char>>
    decreases args.len() - i,
{
    if i < 1 || i >= args.len() {
        Ok(CommandView::History { sku: args[0], start, end })
    } else if args[i] == "--start"@ {
        if i + 1 >= args.len() {
            Err("--start requires a datetime value (e.g., 2025-01-01T00:00:00)"@)
        } else {
            match instant_read(args[i + 1]) {
                None => Err(invalid_datetime(args[i + 1])),
                Some(t) => read_history_options(args, i + 2, Some(t), end),
            }
        }
    } else if args[i] == "--end"@ {
        if i + 1 >= args.len() {
            Err("--end requires a datetime value (e.g., 2025-12-31T23:59:59)"@)
        } else {
            match instant_read(args[i + 1]) {
                None => Err(invalid_datetime(args[i + 1])),
                Some(t) => read_history_options(args, i + 2, start, Some(t)),
            }
        }
    } else {
        Err("Unknown option: '"@ + args[i] + "'. Valid options: --start, --end"@)
    }
}

/// What `history` and its arguments mean.
pub open spec fn read_history(args: Seq<Seq<char>>) -> Result<CommandView, Seq<char>> {
    if args.len() == 0 {
        Err(USAGE_HISTORY@)
    } else {
        read_history_options(args, 1, None, None)
    }
}

/// What the arguments of the program mean, the name of the program first:
/// the command that they spell, or the message that says why they spell none.
pub open spec fn read_args(args: Seq<Seq<char>>) -> Result<CommandView, Seq<char>> {
    if args.len() < 2 {
        Ok(CommandView::Help)
    } else {
        let word = args[1];
        let rest = args.subrange(2, args.len() as int);
        if word == "add-product"@ {
            read_add_product(rest)
        } else if word == "update-product"@ {
            read_update_product(rest)
        } else if word == "add-stock"@ {
            read_stock(rest, true)
        } else if word == "remove-stock"@ {
            read_stock(rest, false)
        } else if word == "view-product"@ {
            if rest.len() == 0 {
                Err(USAGE_VIEW_PRODUCT@)
            } else {
                Ok(CommandView::ViewProduct { sku: rest[0] })
            }
        } else if word == "list-products"@ {
            Ok(CommandView::ListProducts)
        } else if word == "low-stock"@ {
            Ok(CommandView::LowStock)
        } else if word == "history"@ {
            read_history(rest)
        } else if word == "delete-product"@ {
            if rest.len() == 0 {
                Err(USAGE_DELETE_PRODUCT@)
            } else {
                Ok(CommandView::DeleteProduct { sku: rest[0] })
            }
        } else if word == "help"@ || word == "--help"@ || word == "-h"@ {
            Ok(CommandView::Help)
        } else {
            Err("Unknown command: '"@ + word + "'. Use 'help' to see available commands."@)
        }
    }
}

/// Decides whether an argument is the word `word`.
fn is_word(arg: &String, word: &str) -> (b: bool)
    ensures
        b == (arg@ == word@),
{
    let w = String::from_str(word);
    *arg == w
}

/// Reads an amount from an argument.
fn parse_amount(text: &String, what: &str, kind: &str) -> (r: Result<u32, String>)
    ensures
        match r {
            Ok(n) => amount_read(text@, what@, kind@) == Ok::<u32, Seq<char>>(n),
            Err(m) => amount_read(text@, what@, kind@) == Err::<u32, Seq<char>>(m@),
        },
{
    match parse_u32(text.as_str()) {
        Some(n) => Ok(n),
        None => Err(
            String::from_str("Invalid ").concat(what).concat(" '").concat(text.as_str()).concat(
                "': must be a ",
            ).concat(kind).concat(" integer"),
        ),
    }
}

/// Gives the instant that a text was read as, or the message that says
/// that the text is no date and time.
pub fn datetime_or_error(text: &str, reading: Option<Timestamp>) -> (r: Result<Timestamp, String>)
    ensures
        match reading {
            Some(t) => r == Ok::<Timestamp, String>(t),
            None => r matches Err(m) && m@ == invalid_datetime(text@),
        },
{
    match reading {
        Some(t) => Ok(t),
        None => Err(
            String::from_str("Invalid datetime '").concat(text).concat(
                "': expected format YYYY-MM-DDTHH:MM:SS",
            ),
        ),
    }
}

/// Reads a date and time of the shape `YYYY-MM-DDTHH:MM:SS` as an instant
/// in UTC.
pub fn parse_datetime(s: &str) -> (r: Result<Timestamp, String>)
    ensures
        match instant_read(s@) {
            Some(t) => r == Ok::<Timestamp, String>(t),
            None => r matches Err(m) && m@ == invalid_datetime(s@),
        },
{
    let reading = read_datetime(s);
    datetime_or_error(s, reading)
}

fn parse_add_product(args: &[String]) -> (r: Result<Command, String>)
    ensures
        reading_view(r) == read_add_product(args.deep_view()),
{
    if args.len() < 5 {
        return Err(String::from_str(USAGE_ADD_PRODUCT));
    }
    let quantity = match parse_amount(&args[3], "quantity", "non-negative") {
        Ok(n) => n,
        Err(m) => {
            return Err(m);
        },
    };
    let reorder_point = match parse_amount(&args[4], "reorder point", "non-negative") {
        Ok(n) => n,
        Err(m) => {
            return Err(m);
        },
    };
    Ok(
        Command::AddProduct {
            sku: args[0].clone(),
            name: args[1].clone(),
            description: args[2].clone(),
            quantity,
            reorder_point,
        },
    )
}

fn parse_update_product(args: &[String]) -> (r: Result<Command, String>)
    ensures
        reading_view(r) == read_update_product(args.deep_view()),
{
    if args.len() == 0 {
        return Err(String::from_str(USAGE_UPDATE_PRODUCT));
    }
    let ghost all = args.deep_view();
    let mut name: Option<String> = None;
    let mut description: Option<String> = None;
    let mut reorder_point: Option<u32> = None;
    let mut i: usize = 1;
    while i < args.len()
        invariant
            1 <= i,
            all == args.deep_view(),
            read_update_product(all) == read_update_options(
                all,
                i as int,
                text_view(name),
                text_view(description),
                reorder_point,
            ),
        decreases args.len() - i,
    {
        if is_word(&args[i], "--name") {
            if i + 1 >= args.len() {
                return Err(String::from_str("--name requires a value"));
            }
            name = Some(args[i + 1].clone());
            i += 2;
        } else if is_word(&args[i], "--description") {
            if i + 1 >= args.len() {
                return Err(String::from_str("--description requires a value"));
            }
            description = Some(args[i + 1].clone());
            i += 2;
        } else if is_word(&args[i], "--reorder-point") {
            if i + 1 >= args.len() {
                return Err(String::from_str("--reorder-point requires a value"));
            }
            match parse_amount(&args[i + 1], "reorder point", "non-negative") {
                Ok(n) => {
                    reorder_point = Some(n);
                },
                Err(m) => {
                    return Err(m);
                },
            }
            i += 2;
        } else {
            return Err(
                String::from_str("Unknown option: '").concat(args[i].as_str()).concat(
                    "'. Valid options: --name, --description, --reorder-point",
                ),
            );
        }
    }
    Ok(Command::UpdateProduct { sku: args[0].clone(), name, description, reorder_point })
}

fn parse_notes(args: &[String]) -> (r: Result<Option<String>, String>)
    ensures
        match r {
            Ok(notes) => read_notes(args.deep_view()) == Ok::<Option<Seq<char>>, Seq<char>>(
                text_view(notes),
            ),
            Err(m) => read_notes(args.deep_view()) == Err::<Option<Seq<char>>, Seq<char>>(m@),
        },
{
    if args.len() > 2 && is_word(&args[2], "--notes") {
        if args.len() > 3 {
            Ok(Some(args[3].clone()))
        } else {
            Err(String::from_str("--notes requires a value"))
        }
    } else {
        Ok(None)
    }
}

fn parse_add_stock(args: &[String]) -> (r: Result<Command, String>)
    ensures
        reading_view(r) == read_stock(args.deep_view(), true),
{
    if args.len() < 2 {
        return Err(String::from_str(USAGE_ADD_STOCK));
    }
    let quantity = match parse_amount(&args[1], "quantity", "positive") {
        Ok(n) => n,
        Err(m) => {
            return Err(m);
        },
    };
    match parse_notes(args) {
        Ok(notes) => Ok(Command::AddStock { sku: args[0].clone(), quantity, notes }),
        Err(m) => Err(m),
    }
}

fn parse_remove_stock(args: &[String]) -> (r: Result<Command, String>)
    ensures
        reading_view(r) == read_stock(args.deep_view(), false),
{
    if args.len() < 2 {
        return Err(String::from_str(USAGE_REMOVE_STOCK));
    }
    let quantity = match parse_amount(&args[1], "quantity", "positive") {
        Ok(n) => n,
        Err(m) => {
            return Err(m);
        },
    };
    match parse_notes(args) {
        Ok(notes) => Ok(Command::RemoveStock { sku: args[0].clone(), quantity, notes }),
        Err(m) => Err(m),
    }
}

fn parse_view_product(args: &[String]) -> (r: Result<Command, String>)
    ensures
        reading_view(r) == if args.deep_view().len() == 0 {
            Err::<CommandView, Seq<char>>(USAGE_VIEW_PRODUCT@)
        } else {
            Ok(CommandView::ViewProduct { sku: args.deep_view()[0] })
        },
{
    if args.len() == 0 {
        return Err(String::from_str(USAGE_VIEW_PRODUCT));
    }
    Ok(Command::ViewProduct { sku: args[0].clone() })
}

fn parse_delete_product(args: &[String]) -> (r: Result<Command, String>)
    ensures
        reading_view(r) == if args.deep_view().len() == 0 {
            Err::<CommandView, Seq<char>>(USAGE_DELETE_PRODUCT@)
        } else {
            Ok(CommandView::DeleteProduct { sku: args.deep_view()[0] })
        },
{
    if args.len() == 0 {
        return Err(String::from_str(USAGE_DELETE_PRODUCT));
    }
    Ok(Command::DeleteProduct { sku: args[0].clone() })
}

fn parse_history(args: &[String]) -> (r: Result<Command, String>)
    ensures
        reading_view(r) == read_history(args.deep_view()),
{
    if args.len() == 0 {
        return Err(String::from_str(USAGE_HISTORY));
    }
    let ghost all = args.deep_view();
    let mut start: Option<Timestamp> = None;
    let mut end: Option<Timestamp> = None;
    let mut i: usize = 1;
    while i < args.len()
        invariant
            1 <= i,
            all == args.deep_view(),
            read_history(all) == read_history_options(all, i as int, start, end),
        decreases args.len() - i,
    {
        if is_word(&args[i], "--start") {
            if i + 1 >= args.len() {
                return Err(
                    String::from_str(
                        "--start requires a datetime value (e.g., 2025-01-01T00:00:00)",
                    ),
                );
            }
            match parse_datetime(args[i + 1].as_str()) {
                Ok(t) => {
                    start = Some(t);
                },
                Err(m) => {
                    return Err(m);
                },
            }
            i += 2;
        } else if is_word(&args[i], "--end") {
            if i + 1 >= args.len() {
                return Err(
                    String::from_str("--end requires a datetime value (e.g., 2025-12-31T23:59:59)"),
                );
            }
            match parse_datetime(args[i + 1].as_str()) {
                Ok(t) => {
                    end = Some(t);
                },
                Err(m) => {
                    return Err(m);
                },
            }
            i += 2;
        } else {
            return Err(
                String::from_str("Unknown option: '").concat(args[i].as_str()).concat(
                    "'. Valid options: --start, --end",
                ),
            );
        }
    }
    Ok(Command::History { sku: args[0].clone(), start, end })
}

/// Reads the command that the arguments of the program spell; the first
/// argument is the name of the program. No argument behind the name asks
/// for the help text.
pub fn parse_args(args: &[String]) -> (r: Result<Command, String>)
    ensures
        reading_view(r) == read_args(args.deep_view()),
{
    if args.len() < 2 {
        return Ok(Command::Help);
    }
    let word = &args[1];
    let rest = slice_subrange(args, 2, args.len());
    assert(rest.deep_view() =~= args.deep_view().subrange(2, args.len() as int));
    if is_word(word, "add-product") {
        parse_add_product(rest)
    } else if is_word(word, "update-product") {
        parse_update_product(rest)
    } else if is_word(word, "add-stock") {
        parse_add_stock(rest)
    } else if is_word(word, "remove-stock") {
        parse_remove_stock(rest)
    } else if is_word(word, "view-product") {
        parse_view_product(rest)
    } else if is_word(word, "list-products") {
        Ok(Command::ListProducts)
    } else if is_word(word, "low-stock") {
        Ok(Command::LowStock)
    } else if is_word(word, "history") {
        parse_history(rest)
    } else if is_word(word, "delete-product") {
        parse_delete_product(rest)
    } else if is_word(word, "help") || is_word(word, "--help") || is_word(word, "-h") {
        Ok(Command::Help)
    } else {
        Err(
            String::from_str("Unknown command: '").concat(word.as_str()).concat(
                "'. Use 'help' to see available commands.",
            ),
        )
    }
}

/// The result of carrying a command out, with the reply and the error by
/// their views.
pub open spec fn outcome_view(r: Result<Reply, ServiceError>) -> Result<
    ReplyView,
    ServiceErrorView,
> {
    match r {
        Ok(reply) => Ok(reply@),
        Err(e) => Err(e@),
    }
}

/// The result of a command as text, by the views of the texts.
pub open spec fn shown_view(r: Result<String, String>) -> Result<Seq<char>, Seq<char>> {
    match r {
        Ok(text) => Ok(text@),
        Err(text) => Err(text@),
    }
}

/// The text that is shown for the outcome of a command: the text of the
/// reply, or the text of the error.
pub open spec fn shown(outcome: Result<ReplyView, ServiceErrorView>) -> Result<
    Seq<char>,
    Seq<char>,
> {
    match outcome {
        Ok(reply) => Ok(reply.text()),
        Err(e) => Err(error_text(e)),
    }
}

/// A command that changes the inventory was carried out as the request
/// `op`: the inventory did the step, and the outcome is the reason where the
/// request was turned down, and `reply` or a storage error where it was
/// accepted.
pub open spec fn changed(
    pre: Inventory,
    op: Operation,
    post: Inventory,
    outcome: Result<ReplyView, ServiceErrorView>,
    reply: ReplyView,
) -> bool {
    &&& post == pre.step(op)
    &&& match pre.refusal(op) {
        Some(reason) => outcome == Err::<ReplyView, ServiceErrorView>(reason),
        None => outcome == Ok::<ReplyView, ServiceErrorView>(reply) || (outcome matches Err(e)
            && e is StorageError),
    }
}

/// The history that the command `history` shows: between the two instants
/// where both are given, the whole history else.
pub open spec fn history_shown(
    pre: Inventory,
    sku: Seq<char>,
    start: Option<Timestamp>,
    end: Option<Timestamp>,
) -> Seq<TransactionView> {
    match (start, end) {
        (Some(s), Some(e)) => pre.history_between(sku, s, e),
        _ => pre.history(sku),
    }
}

/// Filing the product under some identifier may leave the inventory `post`
/// and give `outcome`.
pub open spec fn files_product(
    pre: Inventory,
    sku: Seq<char>,
    name: Seq<char>,
    description: Seq<char>,
    quantity: u32,
    reorder_point: u32,
    post: Inventory,
    outcome: Result<ReplyView, ServiceErrorView>,
) -> bool {
    exists|id: Seq<char>|
        changed(
            pre,
            Operation::AddProduct {
                product: #[trigger] product_of(id, sku, name, description, quantity, reorder_point),
            },
            post,
            outcome,
            ReplyView::Added(product_of(id, sku, name, description, quantity, reorder_point)),
        )
}

/// Recording the movement under some identifier at some instant may leave
/// the inventory `post` and give `outcome`.
pub open spec fn moves_stock(
    pre: Inventory,
    kind: TransactionType,
    sku: Seq<char>,
    quantity: u32,
    notes: Option<Seq<char>>,
    post: Inventory,
    outcome: Result<ReplyView, ServiceErrorView>,
) -> bool {
    exists|id: Seq<char>, at: Timestamp|
        changed(
            pre,
            Operation::RecordMovement {
                movement: #[trigger] movement_of(kind, sku, quantity, notes, id, at),
            },
            post,
            outcome,
            match kind {
                TransactionType::Addition => ReplyView::StockAdded {
                    sku,
                    quantity: quantity as int,
                    new_quantity: post.stock(sku),
                },
                TransactionType::Removal => ReplyView::StockRemoved {
                    sku,
                    quantity: quantity as int,
                    new_quantity: post.stock(sku),
                },
            },
        )
}

/// Carrying the command out on the inventory `pre` may leave the inventory
/// `post` and give `outcome`.
pub open spec fn performs(
    pre: Inventory,
    command: CommandView,
    post: Inventory,
    outcome: Result<ReplyView, ServiceErrorView>,
) -> bool {
    match command {
        CommandView::AddProduct { sku, name, description, quantity, reorder_point } =>
            files_product(pre, sku, name, description, quantity, reorder_point, post, outcome),
        CommandView::UpdateProduct { sku, name, description, reorder_point } => changed(
            pre,
            Operation::UpdateProduct {
                sku,
                name,
                description,
                reorder_point: amount_view(reorder_point),
            },
            post,
            outcome,
            ReplyView::Updated(pre.revised(sku, name, description, amount_view(reorder_point))),
        ),
        CommandView::AddStock { sku, quantity, notes } => moves_stock(
            pre,
            TransactionType::Addition,
            sku,
            quantity,
            notes,
            post,
            outcome,
        ),
        CommandView::RemoveStock { sku, quantity, notes } => moves_stock(
            pre,
            TransactionType::Removal,
            sku,
            quantity,
            notes,
            post,
            outcome,
        ),
        CommandView::ViewProduct { sku } => {
            &&& post == pre
            &&& outcome == if pre.has(sku) {
                Ok::<ReplyView, ServiceErrorView>(ReplyView::Details(pre.catalog[sku]))
            } else {
                Err(ServiceErrorView::ProductNotFound(sku))
            }
        },
        CommandView::ListProducts => {
            &&& post == pre
            &&& outcome matches Ok(ReplyView::Listing(listing)) && enumerates(listing, pre.catalog)
        },
        CommandView::LowStock => {
            &&& post == pre
            &&& outcome matches Ok(ReplyView::LowStock(listing)) && enumerates(
                listing,
                low_stock_part(pre.catalog),
            )
        },
        CommandView::History { sku, start, end } => {
            &&& post == pre
            &&& outcome == if pre.has(sku) {
                Ok::<ReplyView, ServiceErrorView>(
                    ReplyView::History {
                        sku,
                        transactions: history_shown(pre, sku, start, end),
                    },
                )
            } else {
                Err(ServiceErrorView::ProductNotFound(sku))
            }
        },
        CommandView::DeleteProduct { sku } => changed(
            pre,
            Operation::DeleteProduct { sku },
            post,
            outcome,
            ReplyView::Deleted(sku),
        ),
        CommandView::Help => post == pre && outcome == Ok::<ReplyView, ServiceErrorView>(
            ReplyView::Help,
        ),
    }
}

/// The stock that the command would add does not lift the stock of its
/// product over what 32 bits hold.
pub open spec fn fits(pre: Inventory, command: CommandView) -> bool {
    command matches CommandView::AddStock { sku, quantity, .. } ==> pre.stock(sku) + quantity
        <= u32::MAX
}

/// Copies the products of a listing.
fn owned_products(listing: Vec<&Product>) -> (r: Vec<Product>)
    ensures
        r.deep_view() == listing.deep_view(),
{
    let mut out: Vec<Product> = Vec::new();
    let mut i: usize = 0;
    while i < listing.len()
        invariant
            i <= listing.len(),
            out.len() == i,
            forall|j: int| 0 <= j < i ==> out[j]@ == listing[j]@,
        decreases listing.len() - i,
    {
        out.push(listing[i].clone());
        i += 1;
    }
    assert(out.deep_view() =~= listing.deep_view());
    out
}

/// Copies the movements of a history.
fn owned_transactions(history: Vec<&Transaction>) -> (r: Vec<Transaction>)
    ensures
        r.deep_view() == history.deep_view(),
{
    let mut out: Vec<Transaction> = Vec::new();
    let mut i: usize = 0;
    while i < history.len()
        invariant
            i <= history.len(),
            out.len() == i,
            forall|j: int| 0 <= j < i ==> out[j]@ == history[j]@,
        decreases history.len() - i,
    {
        out.push(history[i].clone());
        i += 1;
    }
    assert(out.deep_view() =~= history.deep_view());
    out
}

fn perform_add_product(
    sku: String,
    name: String,
    description: String,
    quantity: u32,
    reorder_point: u32,
    service: &mut InventoryService,
) -> (r: Result<Reply, ServiceError>)
    requires
        old(service).wf(),
    ensures
        final(service).wf(),
        performs(
            old(service)@,
            CommandView::AddProduct {
                sku: sku@,
                name: name@,
                description: description@,
                quantity,
                reorder_point,
            },
            final(service)@,
            outcome_view(r),
        ),
{
    let ghost pre = service@;
    let ghost (s, n, d) = (sku@, name@, description@);
    let added = service.add_product(sku, name, description, quantity, reorder_point);
    let ghost id = choose|id: Seq<char>|
        {
            let product = #[trigger] product_of(id, s, n, d, quantity, reorder_point);
            let op = Operation::AddProduct { product };
            &&& service@ == pre.step(op)
            &&& answers(added, pre.refusal(op))
            &&& added matches Ok(p) ==> p@ == product
        };
    let ghost product = product_of(id, s, n, d, quantity, reorder_point);
    let r = match added {
        Ok(p) => Ok(Reply::Added(p)),
        Err(e) => Err(e),
    };
    assert(files_product(pre, s, n, d, quantity, reorder_point, service@, outcome_view(r)));
    r
}

fn perform_stock(
    kind: TransactionType,
    sku: String,
    quantity: u32,
    notes: Option<String>,
    service: &mut InventoryService,
) -> (r: Result<Reply, ServiceError>)
    requires
        old(service).wf(),
        kind == TransactionType::Addition ==> old(service)@.stock(sku@) + quantity <= u32::MAX,
    ensures
        final(service).wf(),
        performs(
            old(service)@,
            match kind {
                TransactionType::Addition => CommandView::AddStock {
                    sku: sku@,
                    quantity,
                    notes: text_view(notes),
                },
                TransactionType::Removal => CommandView::RemoveStock {
                    sku: sku@,
                    quantity,
                    notes: text_view(notes),
                },
            },
            final(service)@,
            outcome_view(r),
        ),
{
    let ghost pre = service@;
    let ghost n = text_view(notes);
    let moved = match kind {
        TransactionType::Addition => service.add_stock(sku.as_str(), quantity, notes),
        TransactionType::Removal => service.remove_stock(sku.as_str(), quantity, notes),
    };
    let ghost (id, at) = choose|id: Seq<char>, at: Timestamp|
        {
            let op = Operation::RecordMovement {
                movement: #[trigger] movement_of(kind, sku@, quantity, n, id, at),
            };
            &&& service@ == pre.step(op)
            &&& answers(moved, pre.refusal(op))
        };
    let ghost movement = movement_of(kind, sku@, quantity, n, id, at);
    let ghost op = Operation::RecordMovement { movement };
    let r = match moved {
        Err(e) => Err(e),
        Ok(()) => {
            assert(pre.refusal(op) is None);
            assert(service@.has(sku@));
            match service.get_product(sku.as_str()) {
                Ok(p) => {
                    let new_quantity = p.quantity;
                    match kind {
                        TransactionType::Addition => Ok(
                            Reply::StockAdded { sku, quantity, new_quantity },
                        ),
                        TransactionType::Removal => Ok(
                            Reply::StockRemoved { sku, quantity, new_quantity },
                        ),
                    }
                },
                Err(e) => Err(e),
            }
        },
    };
    assert(changed(
        pre,
        op,
        service@,
        outcome_view(r),
        match kind {
            TransactionType::Addition => ReplyView::StockAdded {
                sku: sku@,
                quantity: quantity as int,
                new_quantity: service@.stock(sku@),
            },
            TransactionType::Removal => ReplyView::StockRemoved {
                sku: sku@,
                quantity: quantity as int,
                new_quantity: service@.stock(sku@),
            },
        },
    ));
    assert(moves_stock(pre, kind, sku@, quantity, n, service@, outcome_view(r)));
    r
}

fn perform_history(
    sku: String,
    start: Option<Timestamp>,
    end: Option<Timestamp>,
    service: &InventoryService,
) -> (r: Result<Reply, ServiceError>)
    requires
        service.wf(),
    ensures
        performs(
            service@,
            CommandView::History { sku: sku@, start, end },
            service@,
            outcome_view(r),
        ),
{
    match service.get_product(sku.as_str()) {
        Ok(_) => {},
        Err(e) => {
            return Err(e);
        },
    }
    let transactions = match (start, end) {
        (Some(s), Some(e)) => owned_transactions(
            service.get_transactions_in_range(sku.as_str(), s, e),
        ),
        _ => owned_transactions(service.get_transactions(sku.as_str())),
    };
    Ok(Reply::History { sku, transactions })
}

/// Carries a command out on the inventory service and gives the reply as a
/// value. The stock that an `add-stock` adds must fit.
pub fn perform(command: Command, service: &mut InventoryService) -> (r: Result<
    Reply,
    ServiceError,
>)
    requires
        old(service).wf(),
        fits(old(service)@, command@),
    ensures
        final(service).wf(),
        performs(old(service)@, command@, final(service)@, outcome_view(r)),
{
    match command {
        Command::AddProduct { sku, name, description, quantity, reorder_point } => {
            perform_add_product(sku, name, description, quantity, reorder_point, service)
        },
        Command::UpdateProduct { sku, name, description, reorder_point } => {
            match service.update_product(sku.as_str(), name, description, reorder_point) {
                Ok(p) => Ok(Reply::Updated(p)),
                Err(e) => Err(e),
            }
        },
        Command::AddStock { sku, quantity, notes } => {
            perform_stock(TransactionType::Addition, sku, quantity, notes, service)
        },
        Command::RemoveStock { sku, quantity, notes } => {
            perform_stock(TransactionType::Removal, sku, quantity, notes, service)
        },
        Command::ViewProduct { sku } => {
            match service.get_product(sku.as_str()) {
                Ok(p) => Ok(Reply::Details(p.clone())),
                Err(e) => Err(e),
            }
        },
        Command::ListProducts => {
            let listing = owned_products(service.list_products());
            Ok(Reply::Listing(listing))
        },
        Command::LowStock => {
            let listing = owned_products(service.list_low_stock());
            Ok(Reply::LowStock(listing))
        },
        Command::History { sku, start, end } => perform_history(sku, start, end, service),
        Command::DeleteProduct { sku } => {
            match service.delete_product(sku.as_str()) {
                Ok(()) => Ok(Reply::Deleted(sku)),
                Err(e) => Err(e),
            }
        },
        Command::Help => Ok(Reply::Help),
    }
}

/// Carries a command out on the inventory service and gives what is to be
/// printed: the text of the reply, or the text of the error. The stock that
/// an `add-stock` adds must fit.
pub fn execute_command(command: Command, service: &mut InventoryService) -> (r: Result<
    String,
    String,
>)
    requires
        old(service).wf(),
        fits(old(service)@, command@),
    ensures
        final(service).wf(),
        exists|outcome: Result<ReplyView, ServiceErrorView>| #[trigger]
            performs(old(service)@, command@, final(service)@, outcome) && shown_view(r) == shown(
                outcome,
            ),
{
    let ghost pre = service@;
    let ghost asked = command@;
    let outcome = perform(command, service);
    assert(performs(pre, asked, service@, outcome_view(outcome)));
    match outcome {
        Ok(reply) => Ok(render(&reply)),
        Err(e) => Err(format_error(e)),
    }
}

} // verus!
