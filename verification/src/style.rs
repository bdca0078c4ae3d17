//! The style sheet the application installs at startup.
//!
//! The text is fixed; [`stylesheet`] is proved to return exactly the text
//! that [`stylesheet_spec`] states, so the GUI shell installs precisely
//! this style sheet and nothing else.

use vstd::prelude::*;

verus! {

/// The text of the application's style sheet.
pub open spec fn stylesheet_spec() -> Seq<char> {
    "
        /* Omma GTK App Styling - Dark Mode */

        @define-color omma_green #10b981;
        @define-color omma_green_dark #059669;
        @define-color omma_emerald #10b981;
        @define-color omma_purple #a855f7;

        window {
            background: linear-gradient(135deg, #111827 0%, #1f2937 50%, #111827 100%);
            color: #e5e7eb;
        }

        .toolbar {
            background-color: rgba(17, 24, 39, 0.95);
            border-bottom: 1px solid rgba(55, 65, 81, 0.5);
        }

        .card {
            background-color: rgba(31, 41, 55, 0.5);
            border: 1px solid rgba(55, 65, 81, 0.5);
            border-radius: 16px;
            box-shadow: 0 4px 6px -1px rgba(0, 0, 0, 0.3);
            margin: 8px 0;
            color: #e5e7eb;
        }

        label {
            color: #e5e7eb;
        }

        entry {
            background-color: rgba(31, 41, 55, 0.8);
            color: #e5e7eb;
            border: 1px solid rgba(55, 65, 81, 0.5);
        }

        button {
            color: #e5e7eb;
        }

        .omma-progress trough {
            min-height: 1px;
            background-color: rgba(55, 65, 81, 0.5);
            border-radius: 0;
        }

        .omma-progress progress {
            background-image: linear-gradient(to right, @omma_green, @omma_emerald);
            border-radius: 0;
            min-height: 1px;
        }

        .badge {
            padding: 4px 8px;
            border-radius: 12px;
            font-size: 11px;
            font-weight: 600;
            border: 1px solid;
        }

        .badge.purple {
            background-color: rgba(168, 85, 247, 0.2);
            color: #c084fc;
            border-color: rgba(168, 85, 247, 0.2);
        }

        .badge.dim {
            background-color: rgba(107, 114, 128, 0.2);
            color: #9ca3af;
            border-color: rgba(107, 114, 128, 0.2);
        }

        .suggested-action {
            background-image: linear-gradient(to bottom, @omma_green, @omma_green_dark);
            color: white;
            border: none;
            border-radius: 12px;
            padding: 8px 16px;
            font-weight: 600;
        }

        .suggested-action:hover {
            background-image: linear-gradient(to bottom, @omma_green_dark, @omma_green_dark);
        }

        .pill {
            background-color: rgba(249, 250, 251, 0.9);
            border: 1px solid rgba(209, 213, 219, 0.5);
            border-radius: 20px;
            padding: 6px 12px;
            font-size: 12px;
        }

        .dim-label {
            color: #6b7280;
            font-size: 12px;
        }

        .caption {
            font-size: 10px;
        }

        .title-3 {
            font-size: 16px;
            font-weight: 600;
        }
    "@
}

/// Returns the application's style sheet, exactly the text of
/// [`stylesheet_spec`].
pub fn stylesheet() -> (r: String)
    ensures
        r@ == stylesheet_spec(),
{
    "
        /* Omma GTK App Styling - Dark Mode */

        @define-color omma_green #10b981;
        @define-color omma_green_dark #059669;
        @define-color omma_emerald #10b981;
        @define-color omma_purple #a855f7;

        window {
            background: linear-gradient(135deg, #111827 0%, #1f2937 50%, #111827 100%);
            color: #e5e7eb;
        }

        .toolbar {
            background-color: rgba(17, 24, 39, 0.95);
            border-bottom: 1px solid rgba(55, 65, 81, 0.5);
        }

        .card {
            background-color: rgba(31, 41, 55, 0.5);
            border: 1px solid rgba(55, 65, 81, 0.5);
            border-radius: 16px;
            box-shadow: 0 4px 6px -1px rgba(0, 0, 0, 0.3);
            margin: 8px 0;
            color: #e5e7eb;
        }

        label {
            color: #e5e7eb;
        }

        entry {
            background-color: rgba(31, 41, 55, 0.8);
            color: #e5e7eb;
            border: 1px solid rgba(55, 65, 81, 0.5);
        }

        button {
            color: #e5e7eb;
        }

        .omma-progress trough {
            min-height: 1px;
            background-color: rgba(55, 65, 81, 0.5);
            border-radius: 0;
        }

        .omma-progress progress {
            background-image: linear-gradient(to right, @omma_green, @omma_emerald);
            border-radius: 0;
            min-height: 1px;
        }

        .badge {
            padding: 4px 8px;
            border-radius: 12px;
            font-size: 11px;
            font-weight: 600;
            border: 1px solid;
        }

        .badge.purple {
            background-color: rgba(168, 85, 247, 0.2);
            color: #c084fc;
            border-color: rgba(168, 85, 247, 0.2);
        }

        .badge.dim {
            background-color: rgba(107, 114, 128, 0.2);
            color: #9ca3af;
            border-color: rgba(107, 114, 128, 0.2);
        }

        .suggested-action {
            background-image: linear-gradient(to bottom, @omma_green, @omma_green_dark);
            color: white;
            border: none;
            border-radius: 12px;
            padding: 8px 16px;
            font-weight: 600;
        }

        .suggested-action:hover {
            background-image: linear-gradient(to bottom, @omma_green_dark, @omma_green_dark);
        }

        .pill {
            background-color: rgba(249, 250, 251, 0.9);
            border: 1px solid rgba(209, 213, 219, 0.5);
            border-radius: 20px;
            padding: 6px 12px;
            font-size: 12px;
        }

        .dim-label {
            color: #6b7280;
            font-size: 12px;
        }

        .caption {
            font-size: 10px;
        }

        .title-3 {
            font-size: 16px;
            font-weight: 600;
        }
    ".to_owned()
}

} // verus!
