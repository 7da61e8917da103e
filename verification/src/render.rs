//! What the command line shows: the reply to each command as a value, and
//! the text that is printed for it.

use crate::clock::{calendar_text, write_datetime};
use crate::errors::{ServiceError, ServiceErrorView};
use crate::models::{Product, ProductView, Timestamp, Transaction, TransactionType, TransactionView};
use crate::text::{decimal, decimal_text, trim_end, trimmed_end};
use vstd::prelude::*;
use vstd::string::*;

verus! {

/// The reply to a command that was carried out.
#[derive(Debug)]
pub enum Reply {
    /// The product that was filed.
    Added(Product),
    /// The product as it is after the update.
    Updated(Product),
    /// Stock came in; the stock on hand after it.
    StockAdded { sku: String, quantity: u32, new_quantity: u32 },
    /// Stock went out; the stock on hand after it.
    StockRemoved { sku: String, quantity: u32, new_quantity: u32 },
    /// One product.
    Details(Product),
    /// Every product.
    Listing(Vec<Product>),
    /// Every product that is low on stock.
    LowStock(Vec<Product>),
    /// The movements of one product, in order of time.
    History { sku: String, transactions: Vec<Transaction> },
    /// The SKU of the product that was deleted.
    Deleted(String),
    /// The help text was asked for.
    Help,
}

/// What a `Reply` holds, as mathematical values.
pub enum ReplyView {
    Added(ProductView),
    Updated(ProductView),
    StockAdded { sku: Seq<char>, quantity: int, new_quantity: int },
    StockRemoved { sku: Seq<char>, quantity: int, new_quantity: int },
    Details(ProductView),
    Listing(Seq<ProductView>),
    LowStock(Seq<ProductView>),
    History { sku: Seq<char>, transactions: Seq<TransactionView> },
    Deleted(Seq<char>),
    Help,
}

impl View for Reply {
    type V = ReplyView;

    open spec fn view(&self) -> ReplyView {
        match self {
            Reply::Added(p) => ReplyView::Added(p@),
            Reply::Updated(p) => ReplyView::Updated(p@),
            Reply::StockAdded { sku, quantity, new_quantity } => ReplyView::StockAdded {
                sku: sku@,
                quantity: *quantity as int,
                new_quantity: *new_quantity as int,
            },
            Reply::StockRemoved { sku, quantity, new_quantity } => ReplyView::StockRemoved {
                sku: sku@,
                quantity: *quantity as int,
                new_quantity: *new_quantity as int,
            },
            Reply::Details(p) => ReplyView::Details(p@),
            Reply::Listing(products) => ReplyView::Listing(products.deep_view()),
            Reply::LowStock(products) => ReplyView::LowStock(products.deep_view()),
            Reply::History { sku, transactions } => ReplyView::History {
                sku: sku@,
                transactions: transactions.deep_view(),
            },
            Reply::Deleted(sku) => ReplyView::Deleted(sku@),
            Reply::Help => ReplyView::Help,
        }
    }
}

/// The text that explains the commands.
pub const HELP_TEXT: &'static str =
    "Stock Control System - Inventory Management CLI\n\nUSAGE:\n    stock-control <COMMAND> [OPTIONS]\n\nCOMMANDS:\n    add-product <sku> <name> <description> <quantity> <reorder_point>\n        Add a new product to inventory\n        Example: add-product SKU001 \"Widget\" \"A useful widget\" 100 20\n\n    update-product <sku> [--name <name>] [--description <desc>] [--reorder-point <n>]\n        Update an existing product's details\n        Example: update-product SKU001 --name \"New Widget\" --reorder-point 30\n\n    add-stock <sku> <quantity> [--notes <notes>]\n        Add stock to a product\n        Example: add-stock SKU001 50 --notes \"Received shipment\"\n\n    remove-stock <sku> <quantity> [--notes <notes>]\n        Remove stock from a product\n        Example: remove-stock SKU001 10 --notes \"Sold to customer\"\n\n    view-product <sku>\n        View details of a specific product\n        Example: view-product SKU001\n\n    list-products\n        List all products in inventory\n\n    low-stock\n        List products with stock at or below reorder point\n\n    history <sku> [--start <datetime>] [--end <datetime>]\n        View transaction history for a product\n        Datetime format: YYYY-MM-DDTHH:MM:SS\n        Example: history SKU001 --start 2025-01-01T00:00:00 --end 2025-12-31T23:59:59\n\n    delete-product <sku>\n        Delete a product and all its transactions\n        Example: delete-product SKU001\n\n    help\n        Show this help message";

/// The text that is shown in place of a date and time that the calendar
/// does not reach.
pub open spec fn unknown_time() -> Seq<char> {
    "????-??-?? ??:??:??"@
}

/// An instant as it is shown: its date and time in UTC.
pub open spec fn instant_text(at: Timestamp) -> Seq<char> {
    match calendar_text(at.secs as int, at.nanos as int) {
        Some(text) => text,
        None => unknown_time(),
    }
}

/// The mark of a product that is low on stock in the details of a product.
pub open spec fn low_stock_mark(p: ProductView) -> Seq<char> {
    if p.is_low() {
        " [LOW STOCK]"@
    } else {
        ""@
    }
}

/// The mark of a product that is low on stock in a listing.
pub open spec fn low_mark(p: ProductView) -> Seq<char> {
    if p.is_low() {
        " [LOW]"@
    } else {
        ""@
    }
}

pub open spec fn added_text(p: ProductView) -> Seq<char> {
    "Product added successfully:\n  ID: "@ + p.id + "\n  SKU: "@ + p.sku + "\n  Name: "@ + p.name
        + "\n  Description: "@ + p.description + "\n  Quantity: "@ + decimal_text(
        p.quantity as nat,
    ) + "\n  Reorder Point: "@ + decimal_text(p.reorder_point as nat)
}

pub open spec fn updated_text(p: ProductView) -> Seq<char> {
    "Product updated successfully:\n  SKU: "@ + p.sku + "\n  Name: "@ + p.name
        + "\n  Description: "@ + p.description + "\n  Quantity: "@ + decimal_text(
        p.quantity as nat,
    ) + "\n  Reorder Point: "@ + decimal_text(p.reorder_point as nat)
}

pub open spec fn stock_added_text(sku: Seq<char>, quantity: int, new_quantity: int) -> Seq<char> {
    "Stock added successfully:\n  SKU: "@ + sku + "\n  Added: "@ + decimal_text(quantity as nat)
        + "\n  New Quantity: "@ + decimal_text(new_quantity as nat)
}

pub open spec fn stock_removed_text(sku: Seq<char>, quantity: int, new_quantity: int) -> Seq<
    char,
> {
    "Stock removed successfully:\n  SKU: "@ + sku + "\n  Removed: "@ + decimal_text(
        quantity as nat,
    ) + "\n  New Quantity: "@ + decimal_text(new_quantity as nat)
}

pub open spec fn details_text(p: ProductView) -> Seq<char> {
    "Product Details:\n  ID: "@ + p.id + "\n  SKU: "@ + p.sku + "\n  Name: "@ + p.name
        + "\n  Description: "@ + p.description + "\n  Quantity: "@ + decimal_text(
        p.quantity as nat,
    ) + low_stock_mark(p) + "\n  Reorder Point: "@ + decimal_text(p.reorder_point as nat)
}

/// The line of one product in the listing of all products.
pub open spec fn listing_line(p: ProductView) -> Seq<char> {
    "  "@ + p.sku + " - "@ + p.name + " (Qty: "@ + decimal_text(p.quantity as nat) + low_mark(p)
        + ")\n"@
}

/// The line of one product in the listing of the products low on stock.
pub open spec fn low_stock_line(p: ProductView) -> Seq<char> {
    "  "@ + p.sku + " - "@ + p.name + " (Qty: "@ + decimal_text(p.quantity as nat)
        + ", Reorder at: "@ + decimal_text(p.reorder_point as nat) + ")\n"@
}

/// The sign of a movement: `+` for an addition, `-` for a removal.
pub open spec fn sign_text(kind: TransactionType) -> Seq<char> {
    match kind {
        TransactionType::Addition => "+"@,
        TransactionType::Removal => "-"@,
    }
}

/// The name of a kind of movement in small letters.
pub open spec fn kind_text(kind: TransactionType) -> Seq<char> {
    match kind {
        TransactionType::Addition => "addition"@,
        TransactionType::Removal => "removal"@,
    }
}

/// The notes of a movement as they follow its line; nothing where it has none.
pub open spec fn notes_text(notes: Option<Seq<char>>) -> Seq<char> {
    match notes {
        Some(n) => " - "@ + n,
        None => ""@,
    }
}

/// The line of one movement in a history, given the text of its instant.
pub open spec fn movement_line(t: TransactionView, when: Seq<char>) -> Seq<char> {
    "  "@ + when + " "@ + sign_text(t.transaction_type) + " "@ + decimal_text(t.quantity as nat)
        + " "@ + kind_text(t.transaction_type) + notes_text(t.notes) + "\n"@
}

/// The line of one movement in a history.
pub open spec fn history_line(t: TransactionView) -> Seq<char> {
    movement_line(t, instant_text(t.timestamp))
}

/// The lines of a listing of all products, one after the other.
pub open spec fn listing_lines(products: Seq<ProductView>) -> Seq<char>
    decreases products.len(),
{
    if products.len() == 0 {
        Seq::empty()
    } else {
        listing_lines(products.drop_last()) + listing_line(products.last())
    }
}

/// The lines of a listing of the products low on stock.
pub open spec fn low_stock_lines(products: Seq<ProductView>) -> Seq<char>
    decreases products.len(),
{
    if products.len() == 0 {
        Seq::empty()
    } else {
        low_stock_lines(products.drop_last()) + low_stock_line(products.last())
    }
}

/// The lines of a history.
pub open spec fn history_lines(transactions: Seq<TransactionView>) -> Seq<char>
    decreases transactions.len(),
{
    if transactions.len() == 0 {
        Seq::empty()
    } else {
        history_lines(transactions.drop_last()) + history_line(transactions.last())
    }
}

pub open spec fn listing_text(products: Seq<ProductView>) -> Seq<char> {
    if products.len() == 0 {
        "No products in inventory."@
    } else {
        trimmed_end(
            "Products ("@ + decimal_text(products.len()) + " total):\n"@ + listing_lines(products),
        )
    }
}

pub open spec fn low_stock_text(products: Seq<ProductView>) -> Seq<char> {
    if products.len() == 0 {
        "No products with low stock."@
    } else {
        trimmed_end(
            "Low Stock Products ("@ + decimal_text(products.len()) + " total):\n"@
                + low_stock_lines(products),
        )
    }
}

pub open spec fn history_text(sku: Seq<char>, transactions: Seq<TransactionView>) -> Seq<char> {
    if transactions.len() == 0 {
        "No transactions found for product '"@ + sku + "'."@
    } else {
        trimmed_end(
            "Transaction History for '"@ + sku + "' ("@ + decimal_text(transactions.len())
                + " transactions):\n"@ + history_lines(transactions),
        )
    }
}

pub open spec fn deleted_text(sku: Seq<char>) -> Seq<char> {
    "Product '"@ + sku + "' deleted successfully."@
}

impl ReplyView {
    /// The text that is printed for the reply.
    pub open spec fn text(self) -> Seq<char> {
        match self {
            ReplyView::Added(p) => added_text(p),
            ReplyView::Updated(p) => updated_text(p),
            ReplyView::StockAdded { sku, quantity, new_quantity } => stock_added_text(
                sku,
                quantity,
                new_quantity,
            ),
            ReplyView::StockRemoved { sku, quantity, new_quantity } => stock_removed_text(
                sku,
                quantity,
                new_quantity,
            ),
            ReplyView::Details(p) => details_text(p),
            ReplyView::Listing(products) => listing_text(products),
            ReplyView::LowStock(products) => low_stock_text(products),
            ReplyView::History { sku, transactions } => history_text(sku, transactions),
            ReplyView::Deleted(sku) => deleted_text(sku),
            ReplyView::Help => HELP_TEXT@,
        }
    }
}

/// The text that is printed for an error of the service.
pub open spec fn error_text(e: ServiceErrorView) -> Seq<char> {
    match e {
        ServiceErrorView::ProductNotFound(sku) => "Error: Product '"@ + sku + "' not found."@,
        ServiceErrorView::DuplicateSKU(sku) => "Error: Product with SKU '"@ + sku
            + "' already exists."@,
        ServiceErrorView::InvalidInput(m) => "Error: "@ + m,
        ServiceErrorView::InsufficientStock { sku, requested, available } =>
            "Error: Insufficient stock for '"@ + sku + "'. Requested: "@ + decimal_text(
                requested as nat,
            ) + ", Available: "@ + decimal_text(available as nat),
        ServiceErrorView::StorageError(e) => "Error: Storage operation failed - "@ + e.text(),
    }
}

/// Words an error of the service for the user.
pub fn format_error(err: ServiceError) -> (s: String)
    ensures
        s@ == error_text(err@),
{
    match err {
        ServiceError::ProductNotFound(sku) => String::from_str("Error: Product '").concat(
            sku.as_str(),
        ).concat("' not found."),
        ServiceError::DuplicateSKU(sku) => String::from_str("Error: Product with SKU '").concat(
            sku.as_str(),
        ).concat("' already exists."),
        ServiceError::InvalidInput(m) => String::from_str("Error: ").concat(m.as_str()),
        ServiceError::InsufficientStock { sku, requested, available } => {
            let wanted = decimal(requested as u64);
            let on_hand = decimal(available as u64);
            String::from_str("Error: Insufficient stock for '").concat(sku.as_str()).concat(
                "'. Requested: ",
            ).concat(wanted.as_str()).concat(", Available: ").concat(on_hand.as_str())
        },
        ServiceError::StorageError(e) => {
            let inner = e.to_string();
            String::from_str("Error: Storage operation failed - ").concat(inner.as_str())
        },
    }
}

/// The text that explains the commands.
pub fn get_help_text() -> (s: String)
    ensures
        s@ == HELP_TEXT@,
{
    String::from_str(HELP_TEXT)
}

/// Gives the text of an instant as the calendar wrote it, and question
/// marks where the calendar does not reach the instant.
pub fn written_or_unknown(written: Option<String>) -> (s: String)
    ensures
        s@ == match written {
            Some(text) => text@,
            None => unknown_time(),
        },
{
    match written {
        Some(text) => text,
        None => String::from_str("????-??-?? ??:??:??"),
    }
}

/// Writes an instant as its date and time; an instant that the calendar
/// does not reach as question marks.
pub fn render_instant(at: Timestamp) -> (s: String)
    ensures
        s@ == instant_text(at),
{
    written_or_unknown(write_datetime(at))
}

fn render_added(p: &Product) -> (s: String)
    ensures
        s@ == added_text(p@),
{
    let quantity = decimal(p.quantity as u64);
    let reorder_point = decimal(p.reorder_point as u64);
    String::from_str("Product added successfully:\n  ID: ").concat(p.id.as_str()).concat(
        "\n  SKU: ",
    ).concat(p.sku.as_str()).concat("\n  Name: ").concat(p.name.as_str()).concat(
        "\n  Description: ",
    ).concat(p.description.as_str()).concat("\n  Quantity: ").concat(quantity.as_str()).concat(
        "\n  Reorder Point: ",
    ).concat(reorder_point.as_str())
}

fn render_updated(p: &Product) -> (s: String)
    ensures
        s@ == updated_text(p@),
{
    let quantity = decimal(p.quantity as u64);
    let reorder_point = decimal(p.reorder_point as u64);
    String::from_str("Product updated successfully:\n  SKU: ").concat(p.sku.as_str()).concat(
        "\n  Name: ",
    ).concat(p.name.as_str()).concat("\n  Description: ").concat(p.description.as_str()).concat(
        "\n  Quantity: ",
    ).concat(quantity.as_str()).concat("\n  Reorder Point: ").concat(reorder_point.as_str())
}

fn render_stock_added(sku: &str, quantity: u32, new_quantity: u32) -> (s: String)
    ensures
        s@ == stock_added_text(sku@, quantity as int, new_quantity as int),
{
    let moved = decimal(quantity as u64);
    let on_hand = decimal(new_quantity as u64);
    String::from_str("Stock added successfully:\n  SKU: ").concat(sku).concat(
        "\n  Added: ",
    ).concat(moved.as_str()).concat("\n  New Quantity: ").concat(on_hand.as_str())
}

fn render_stock_removed(sku: &str, quantity: u32, new_quantity: u32) -> (s: String)
    ensures
        s@ == stock_removed_text(sku@, quantity as int, new_quantity as int),
{
    let moved = decimal(quantity as u64);
    let on_hand = decimal(new_quantity as u64);
    String::from_str("Stock removed successfully:\n  SKU: ").concat(sku).concat(
        "\n  Removed: ",
    ).concat(moved.as_str()).concat("\n  New Quantity: ").concat(on_hand.as_str())
}

fn render_details(p: &Product) -> (s: String)
    ensures
        s@ == details_text(p@),
{
    let quantity = decimal(p.quantity as u64);
    let reorder_point = decimal(p.reorder_point as u64);
    let mark = if p.is_low_stock() {
        " [LOW STOCK]"
    } else {
        ""
    };
    String::from_str("Product Details:\n  ID: ").concat(p.id.as_str()).concat("\n  SKU: ").concat(
        p.sku.as_str(),
    ).concat("\n  Name: ").concat(p.name.as_str()).concat("\n  Description: ").concat(
        p.description.as_str(),
    ).concat("\n  Quantity: ").concat(quantity.as_str()).concat(mark).concat(
        "\n  Reorder Point: ",
    ).concat(reorder_point.as_str())
}

fn render_listing_line(p: &Product) -> (s: String)
    ensures
        s@ == listing_line(p@),
{
    let quantity = decimal(p.quantity as u64);
    let mark = if p.is_low_stock() {
        " [LOW]"
    } else {
        ""
    };
    String::from_str("  ").concat(p.sku.as_str()).concat(" - ").concat(p.name.as_str()).concat(
        " (Qty: ",
    ).concat(quantity.as_str()).concat(mark).concat(")\n")
}

fn render_low_stock_line(p: &Product) -> (s: String)
    ensures
        s@ == low_stock_line(p@),
{
    let quantity = decimal(p.quantity as u64);
    let reorder_point = decimal(p.reorder_point as u64);
    String::from_str("  ").concat(p.sku.as_str()).concat(" - ").concat(p.name.as_str()).concat(
        " (Qty: ",
    ).concat(quantity.as_str()).concat(", Reorder at: ").concat(reorder_point.as_str()).concat(
        ")\n",
    )
}

/// Writes the line of one movement in a history, given the text of its
/// instant.
pub fn render_movement_line(t: &Transaction, when: &str) -> (s: String)
    ensures
        s@ == movement_line(t@, when@),
{
    let quantity = decimal(t.quantity as u64);
    let sign = match t.transaction_type {
        TransactionType::Addition => "+",
        TransactionType::Removal => "-",
    };
    let kind = match t.transaction_type {
        TransactionType::Addition => "addition",
        TransactionType::Removal => "removal",
    };
    let line = String::from_str("  ").concat(when).concat(" ").concat(sign).concat(" ").concat(
        quantity.as_str(),
    ).concat(" ").concat(kind);
    let noted = match &t.notes {
        Some(n) => {
            let notes = String::from_str(" - ").concat(n.as_str());
            line.concat(notes.as_str())
        },
        None => line.concat(""),
    };
    noted.concat("\n")
}

fn render_history_line(t: &Transaction) -> (s: String)
    ensures
        s@ == history_line(t@),
{
    let when = render_instant(t.timestamp);
    render_movement_line(t, when.as_str())
}

fn render_listing(products: &Vec<Product>) -> (s: String)
    ensures
        s@ == listing_text(products.deep_view()),
{
    if products.len() == 0 {
        return String::from_str("No products in inventory.");
    }
    let count = decimal(products.len() as u64);
    let head = String::from_str("Products (").concat(count.as_str()).concat(" total):\n");
    let mut lines = String::new();
    let mut i: usize = 0;
    assert(products.deep_view().subrange(0, 0) =~= Seq::<ProductView>::empty());
    while i < products.len()
        invariant
            i <= products.len(),
            lines@ == listing_lines(products.deep_view().subrange(0, i as int)),
        decreases products.len() - i,
    {
        let line = render_listing_line(&products[i]);
        proof {
            let prefix = products.deep_view().subrange(0, i as int + 1);
            assert(prefix.drop_last() =~= products.deep_view().subrange(0, i as int));
            assert(prefix.last() == products[i as int]@);
        }
        lines.append(line.as_str());
        i += 1;
    }
    assert(products.deep_view().subrange(0, i as int) =~= products.deep_view());
    let whole = head.concat(lines.as_str());
    trim_end(whole.as_str())
}

fn render_low_stock(products: &Vec<Product>) -> (s: String)
    ensures
        s@ == low_stock_text(products.deep_view()),
{
    if products.len() == 0 {
        return String::from_str("No products with low stock.");
    }
    let count = decimal(products.len() as u64);
    let head = String::from_str("Low Stock Products (").concat(count.as_str()).concat(
        " total):\n",
    );
    let mut lines = String::new();
    let mut i: usize = 0;
    assert(products.deep_view().subrange(0, 0) =~= Seq::<ProductView>::empty());
    while i < products.len()
        invariant
            i <= products.len(),
            lines@ == low_stock_lines(products.deep_view().subrange(0, i as int)),
        decreases products.len() - i,
    {
        let line = render_low_stock_line(&products[i]);
        proof {
            let prefix = products.deep_view().subrange(0, i as int + 1);
            assert(prefix.drop_last() =~= products.deep_view().subrange(0, i as int));
            assert(prefix.last() == products[i as int]@);
        }
        lines.append(line.as_str());
        i += 1;
    }
    assert(products.deep_view().subrange(0, i as int) =~= products.deep_view());
    let whole = head.concat(lines.as_str());
    trim_end(whole.as_str())
}

fn render_history(sku: &str, transactions: &Vec<Transaction>) -> (s: String)
    ensures
        s@ == history_text(sku@, transactions.deep_view()),
{
    if transactions.len() == 0 {
        return String::from_str("No transactions found for product '").concat(sku).concat("'.");
    }
    let count = decimal(transactions.len() as u64);
    let head = String::from_str("Transaction History for '").concat(sku).concat("' (").concat(
        count.as_str(),
    ).concat(" transactions):\n");
    let mut lines = String::new();
    let mut i: usize = 0;
    assert(transactions.deep_view().subrange(0, 0) =~= Seq::<TransactionView>::empty());
    while i < transactions.len()
        invariant
            i <= transactions.len(),
            lines@ == history_lines(transactions.deep_view().subrange(0, i as int)),
        decreases transactions.len() - i,
    {
        let line = render_history_line(&transactions[i]);
        proof {
            let prefix = transactions.deep_view().subrange(0, i as int + 1);
            assert(prefix.drop_last() =~= transactions.deep_view().subrange(0, i as int));
            assert(prefix.last() == transactions[i as int]@);
        }
        lines.append(line.as_str());
        i += 1;
    }
    assert(transactions.deep_view().subrange(0, i as int) =~= transactions.deep_view());
    let whole = head.concat(lines.as_str());
    trim_end(whole.as_str())
}

/// Writes the text that is printed for a reply.
pub fn render(reply: &Reply) -> (s: String)
    ensures
        s@ == reply@.text(),
{
    match reply {
        Reply::Added(p) => render_added(p),
        Reply::Updated(p) => render_updated(p),
        Reply::StockAdded { sku, quantity, new_quantity } => render_stock_added(
            sku.as_str(),
            *quantity,
            *new_quantity,
        ),
        Reply::StockRemoved { sku, quantity, new_quantity } => render_stock_removed(
            sku.as_str(),
            *quantity,
            *new_quantity,
        ),
        Reply::Details(p) => render_details(p),
        Reply::Listing(products) => render_listing(products),
        Reply::LowStock(products) => render_low_stock(products),
        Reply::History { sku, transactions } => render_history(sku.as_str(), transactions),
        Reply::Deleted(sku) => String::from_str("Product '").concat(sku.as_str()).concat(
            "' deleted successfully.",
        ),
        Reply::Help => get_help_text(),
    }
}

} // verus!
